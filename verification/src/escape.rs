//! The rules of percent-encoding and of HTML attribute escaping, and the test
//! that a text holds well-formed percent escapes only.

use vstd::prelude::*;
use vstd::utf8::encode_utf8;

verus! {

/// The upper-case hexadecimal digit for a value below sixteen.
pub open spec fn hex_upper(d: nat) -> char {
    if d == 0 {
        '0'
    } else if d == 1 {
        '1'
    } else if d == 2 {
        '2'
    } else if d == 3 {
        '3'
    } else if d == 4 {
        '4'
    } else if d == 5 {
        '5'
    } else if d == 6 {
        '6'
    } else if d == 7 {
        '7'
    } else if d == 8 {
        '8'
    } else if d == 9 {
        '9'
    } else if d == 10 {
        'A'
    } else if d == 11 {
        'B'
    } else if d == 12 {
        'C'
    } else if d == 13 {
        'D'
    } else if d == 14 {
        'E'
    } else {
        'F'
    }
}

/// Whether a character is a hexadecimal digit, in either case.
pub open spec fn is_hex(c: char) -> bool {
    ('0' <= c && c <= '9') || ('a' <= c && c <= 'f') || ('A' <= c && c <= 'F')
}

/// Whether a byte stands for itself in percent-encoding: the ASCII letters
/// and digits, and the marks `-`, `.`, `_` and `~`.
pub open spec fn is_unreserved(b: u8) -> bool {
    (0x30 <= b && b <= 0x39) || (0x41 <= b && b <= 0x5a) || (0x61 <= b && b <= 0x7a) || b == 0x2d
        || b == 0x2e || b == 0x5f || b == 0x7e
}

/// What percent-encoding makes of one byte: the byte itself where it is
/// unreserved, else a percent sign and the byte in two upper-case
/// hexadecimal digits.
pub open spec fn percent_unit(b: u8) -> Seq<char> {
    if is_unreserved(b) {
        seq![b as char]
    } else {
        seq!['%', hex_upper((b / 16) as nat), hex_upper((b % 16) as nat)]
    }
}

/// What percent-encoding makes of some bytes, byte by byte.
pub open spec fn percent_encoding(bytes: Seq<u8>) -> Seq<char>
    decreases bytes.len(),
{
    if bytes.len() == 0 {
        Seq::empty()
    } else {
        percent_encoding(bytes.drop_last()) + percent_unit(bytes.last())
    }
}

/// What percent-encoding makes of a text: the encoding of its UTF-8 bytes.
pub open spec fn percent_encoded(text: Seq<char>) -> Seq<char> {
    percent_encoding(encode_utf8(text))
}

/// Whether the character at a position, where it is a percent sign, is
/// followed by two hexadecimal digits.
pub open spec fn escape_at(s: Seq<char>, i: int) -> bool {
    s[i] == '%' ==> i + 2 < s.len() && is_hex(s[i + 1]) && is_hex(s[i + 2])
}

/// Whether every percent sign of a text is followed by two hexadecimal
/// digits.
pub open spec fn well_escaped(s: Seq<char>) -> bool {
    forall|i: int| 0 <= i < s.len() ==> #[trigger] escape_at(s, i)
}

/// Whether the character at a position, where it is a percent sign, is
/// followed by hexadecimal digits as far as the first `n` characters go.
pub open spec fn escape_upto(s: Seq<char>, i: int, n: int) -> bool {
    s[i] == '%' ==> (i + 1 < n ==> is_hex(s[i + 1])) && (i + 2 < n ==> is_hex(s[i + 2]))
}

/// What percent-encoding makes holds well-formed escapes only.
pub proof fn percent_encoding_is_well_escaped(bytes: Seq<u8>)
    ensures
        well_escaped(percent_encoding(bytes)),
    decreases bytes.len(),
{
    if bytes.len() > 0 {
        let head = percent_encoding(bytes.drop_last());
        let unit = percent_unit(bytes.last());
        let all = head + unit;
        percent_encoding_is_well_escaped(bytes.drop_last());
        assert forall|i: int| 0 <= i < all.len() implies #[trigger] escape_at(all, i) by {
            if i < head.len() {
                assert(escape_at(head, i));
                if head[i] == '%' {
                    assert(all[i + 1] == head[i + 1]);
                    assert(all[i + 2] == head[i + 2]);
                }
            } else {
                assert(all[i] == unit[i - head.len()]);
                if is_unreserved(bytes.last()) {
                    assert(unit[0] != '%');
                } else if all[i] == '%' {
                    assert(i == head.len());
                    assert(all[i + 1] == unit[1]);
                    assert(all[i + 2] == unit[2]);
                }
            }
        }
    }
}

/// Whether a text holds well-formed percent escapes only.
pub fn is_well_escaped(s: &str) -> (well: bool)
    ensures
        well == well_escaped(s@),
{
    let mut owed: u8 = 0;
    for c in it: s.chars()
        invariant
            it.seq() == s@,
            owed <= 2,
            forall|i: int| 0 <= i < it.index() ==> #[trigger] escape_upto(s@, i, it.index() as int),
            owed == if it.index() >= 1 && s@[it.index() - 1] == '%' {
                2int
            } else if it.index() >= 2 && s@[it.index() - 2] == '%' {
                1int
            } else {
                0int
            },
    {
        let ghost n = it.index() as int;
        let hex = (c >= '0' && c <= '9') || (c >= 'a' && c <= 'f') || (c >= 'A' && c <= 'F');
        if owed > 0 {
            if !hex {
                proof {
                    let at = if owed == 2 { n - 1 } else { n - 2 };
                    assert(!escape_at(s@, at));
                }
                return false;
            }
            owed = owed - 1;
        } else if c == '%' {
            owed = 2;
        }
        assert forall|i: int| 0 <= i < n + 1 implies #[trigger] escape_upto(s@, i, n + 1) by {
            if i < n {
                assert(escape_upto(s@, i, n));
            }
        }
    }
    proof {
        let n = s@.len() as int;
        if owed == 0 {
            assert forall|i: int| 0 <= i < n implies #[trigger] escape_at(s@, i) by {
                assert(escape_upto(s@, i, n));
            }
        } else {
            let at = if owed == 2 { n - 1 } else { n - 2 };
            assert(!escape_at(s@, at));
        }
    }
    owed == 0
}

/// Whether a character is an ASCII letter or digit.
pub open spec fn is_alnum(c: char) -> bool {
    ('a' <= c && c <= 'z') || ('A' <= c && c <= 'Z') || ('0' <= c && c <= '9')
}

/// What HTML attribute escaping makes of one character. The five marks of
/// HTML become their entities. Any other character below 256 that is no
/// ASCII letter or digit becomes `&#x`, its code in two upper-case
/// hexadecimal digits, and `;`. Every other character stands for itself.
pub open spec fn html_unit(c: char) -> Seq<char> {
    if c == '"' {
        seq!['&', 'q', 'u', 'o', 't', ';']
    } else if c == '&' {
        seq!['&', 'a', 'm', 'p', ';']
    } else if c == '\'' {
        seq!['&', '#', 'x', '2', '7', ';']
    } else if c == '<' {
        seq!['&', 'l', 't', ';']
    } else if c == '>' {
        seq!['&', 'g', 't', ';']
    } else if (c as nat) < 256 && ((c as nat) > 127 || !is_alnum(c)) {
        seq!['&', '#', 'x', hex_upper((c as nat) / 16), hex_upper((c as nat) % 16), ';']
    } else {
        seq![c]
    }
}

/// What HTML attribute escaping makes of a text, character by character.
pub open spec fn html_escaped(text: Seq<char>) -> Seq<char>
    decreases text.len(),
{
    if text.len() == 0 {
        Seq::empty()
    } else {
        html_escaped(text.drop_last()) + html_unit(text.last())
    }
}

} // verus!
