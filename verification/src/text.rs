//! Numbers as decimal text, in both directions.

use vstd::prelude::*;

verus! {

/// The character that stands for a digit below ten.
pub open spec fn digit_char(d: nat) -> char {
    if d == 0 {
        '0'
    } else if d == 1 {
        '1'
    } else if d == 2 {
        '2'
    } else if d == 3 {
        '3'
    } else if d == 4 {
        '4'
    } else if d == 5 {
        '5'
    } else if d == 6 {
        '6'
    } else if d == 7 {
        '7'
    } else if d == 8 {
        '8'
    } else {
        '9'
    }
}

/// A number written in base ten, most significant digit first, without
/// leading zeros.
pub open spec fn decimal_text(n: nat) -> Seq<char>
    decreases n,
{
    if n < 10 {
        seq![digit_char(n)]
    } else {
        decimal_text(n / 10).push(digit_char(n % 10))
    }
}

fn digit_str(d: usize) -> (s: &'static str)
    requires
        d < 10,
    ensures
        s@ == seq![digit_char(d as nat)],
{
    proof {
        reveal_strlit("0");
        reveal_strlit("1");
        reveal_strlit("2");
        reveal_strlit("3");
        reveal_strlit("4");
        reveal_strlit("5");
        reveal_strlit("6");
        reveal_strlit("7");
        reveal_strlit("8");
        reveal_strlit("9");
    }
    let s = if d == 0 {
        "0"
    } else if d == 1 {
        "1"
    } else if d == 2 {
        "2"
    } else if d == 3 {
        "3"
    } else if d == 4 {
        "4"
    } else if d == 5 {
        "5"
    } else if d == 6 {
        "6"
    } else if d == 7 {
        "7"
    } else if d == 8 {
        "8"
    } else {
        "9"
    };
    assert(s@ =~= seq![digit_char(d as nat)]);
    s
}

/// Writes a number in base ten.
pub fn decimal(n: usize) -> (text: String)
    ensures
        text@ == decimal_text(n as nat),
    decreases n,
{
    if n < 10 {
        digit_str(n).to_owned()
    } else {
        let head = decimal(n / 10);
        let text = head.concat(digit_str(n % 10));
        assert(text@ =~= decimal_text(n as nat));
        text
    }
}

/// Whether a character is one of the ten ASCII digits.
pub open spec fn is_digit(c: char) -> bool {
    '0' <= c && c <= '9'
}

/// The value of one ASCII digit.
pub open spec fn digit_value(c: char) -> nat {
    (c as nat - '0' as nat) as nat
}

/// Whether a text consists of ASCII digits only.
pub open spec fn all_digits(s: Seq<char>) -> bool {
    forall|i: int| 0 <= i < s.len() ==> is_digit(#[trigger] s[i])
}

/// The value of a run of digits read in base ten; the empty run is worth zero.
pub open spec fn digits_value(s: Seq<char>) -> nat
    decreases s.len(),
{
    if s.len() == 0 {
        0
    } else {
        10 * digits_value(s.drop_last()) + digit_value(s.last())
    }
}

/// The digits of a number as it may be typed: one leading `+` is set aside.
pub open spec fn unsigned_part(s: Seq<char>) -> Seq<char> {
    if s.len() > 0 && s[0] == '+' {
        s.drop_first()
    } else {
        s
    }
}

/// The number that a text spells, if it spells one that fits the machine
/// word: an optional `+`, then one or more ASCII digits and nothing else.
pub open spec fn number_of(s: Seq<char>) -> Option<nat> {
    let body = unsigned_part(s);
    if body.len() > 0 && all_digits(body) && digits_value(body) <= usize::MAX {
        Some(digits_value(body))
    } else {
        None
    }
}

/// Reading more digits never lowers the value read so far.
pub proof fn digits_value_grows(s: Seq<char>, k: int)
    requires
        0 <= k <= s.len(),
    ensures
        digits_value(s.take(k)) <= digits_value(s),
    decreases s.len(),
{
    if k < s.len() {
        digits_value_grows(s.drop_last(), k);
        assert(s.drop_last().take(k) =~= s.take(k));
    } else {
        assert(s.take(k) =~= s);
    }
}

/// Reads a number as `number_of` describes it.
pub fn parse_number(s: &str) -> (n: Option<usize>)
    ensures
        match n {
            Some(v) => number_of(s@) == Some(v as nat),
            None => number_of(s@) is None,
        },
{
    let ghost body = unsigned_part(s@);
    let ghost mut seen: int = 0;
    let mut value: usize = 0;
    let mut first: bool = true;
    let mut any: bool = false;
    for c in it: s.chars()
        invariant
            body == unsigned_part(s@),
            it.seq() == s@,
            first <==> it.index() == 0,
            any <==> seen > 0,
            0 <= seen <= it.index(),
            seen == if s@.len() > 0 && s@[0] == '+' && !first {
                it.index() - 1
            } else {
                it.index() as int
            },
            all_digits(body.take(seen)),
            value == digits_value(body.take(seen)),
    {
        if first && c == '+' {
            first = false;
        } else {
            first = false;
            if !(c >= '0' && c <= '9') {
                assert(!is_digit(body[seen]));
                return None;
            }
            let d: usize = (c as u32 - '0' as u32) as usize;
            assert(body.take(seen + 1).drop_last() =~= body.take(seen));
            assert(body.take(seen + 1).last() == c);
            if value > (usize::MAX - d) / 10 {
                proof {
                    digits_value_grows(body, seen + 1);
                }
                return None;
            }
            value = value * 10 + d;
            any = true;
            proof {
                seen = seen + 1;
            }
        }
    }
    assert(body.take(seen) =~= body);
    if any {
        Some(value)
    } else {
        None
    }
}

/// How many characters stand before the first dot of a text; its length
/// where it holds none.
pub open spec fn dot_index(s: Seq<char>) -> nat
    decreases s.len(),
{
    if s.len() == 0 || s[0] == '.' {
        0
    } else {
        1 + dot_index(s.drop_first())
    }
}

/// The first dot stands where no dot stands before it.
pub proof fn dot_index_is_first(s: Seq<char>, k: int)
    requires
        0 <= k <= s.len(),
        forall|j: int| 0 <= j < k ==> s[j] != '.',
        k < s.len() ==> s[k] == '.',
    ensures
        dot_index(s) == k,
    decreases s.len(),
{
    if k > 0 {
        let rest = s.drop_first();
        assert forall|j: int| 0 <= j < k - 1 implies rest[j] != '.' by {
            assert(rest[j] == s[j + 1]);
        }
        dot_index_is_first(rest, k - 1);
    }
}

/// Finds the first dot at or after a position, counted in characters.
pub fn find_dot(s: &str, from: usize) -> (at: usize)
    requires
        from <= s@.len(),
    ensures
        at == from + dot_index(s@.skip(from as int)),
        from <= at <= s@.len(),
{
    let n = s.unicode_len();
    let ghost tail = s@.skip(from as int);
    let mut pos: usize = 0;
    for c in it: s.chars()
        invariant
            it.seq() == s@,
            pos == it.index(),
            n == s@.len(),
            from <= n,
            tail == s@.skip(from as int),
            forall|j: int| from <= j < pos ==> s@[j] != '.',
    {
        if pos >= from && c == '.' {
            proof {
                dot_index_is_first(tail, pos - from);
            }
            return pos;
        }
        pos = pos + 1;
    }
    proof {
        dot_index_is_first(tail, n - from);
    }
    n
}

} // verus!
