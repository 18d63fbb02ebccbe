//! What holds of the catalogue and of the reports, whatever the input.

use crate::args::{Kind, Tools};
use crate::output::{
    capture_step, captured, error_line, plain_line, success_line, CaptureView, LineView,
};
use crate::select::{last_step, Select, SelectOption};
use crate::text::{dot_index, dot_index_is_first, number_of};
use crate::codec::UrlPartsView;
use crate::escape::well_escaped;
use crate::tools::{
    base_64_text, jwt_lines, report_lines, token_parts, url_decoded, url_lines,
};
use vstd::prelude::*;

verus! {

/// A request resolves by the tool it names alone: two requests for the same
/// tool resolve to the same entry, whatever text or flags either carries.
pub proof fn request_payload_is_ignored(select: &Select, first: Tools, second: Tools)
    requires
        first.same_kind(&second),
    ensures
        select.resolved(Some(first)) == select.resolved(Some(second)),
{
}

/// Without a request nothing is resolved.
pub proof fn no_request_resolves_to_nothing(select: &Select)
    ensures
        select.resolved(None) is None,
{
}

/// In the full catalogue every request resolves, and resolves to the entry
/// that runs the tool it names.
pub proof fn catalogue_resolves_every_request(select: &Select, tag: Tools)
    requires
        select.is_catalogue(),
    ensures
        select.resolved(Some(tag)) == Some(tag.kind().index()),
        select.options@[tag.kind().index()].offers(tag.kind()),
{
    let kind = tag.kind();
    let at = kind.index();
    assert(Kind::all()[at] == kind);
    assert(select.options@[at].offers(kind));
    assert forall|j: int| 0 <= j < at implies !(#[trigger] select.options@[j]).names(kind) by {
        assert(select.options@[j].offers(Kind::all()[j]));
        assert(Kind::all()[j].index() == j);
    }
    assert(select.first_for(kind, at));
    select.first_is_unique(kind, at);
}

/// In the full catalogue no two entries answer to the same request.
pub proof fn catalogue_tags_are_unique(select: &Select, kind: Kind, i: int, j: int)
    requires
        select.is_catalogue(),
        0 <= i < select.options@.len(),
        0 <= j < select.options@.len(),
        select.options@[i].names(kind),
        select.options@[j].names(kind),
    ensures
        i == j,
{
    let n = Kind::all().len() as int;
    if i < n {
        assert(select.options@[i].offers(Kind::all()[i]));
        assert(Kind::all()[i].index() == i);
    }
    if j < n {
        assert(select.options@[j].offers(Kind::all()[j]));
        assert(Kind::all()[j].index() == j);
    }
}

/// A selection whose number lies beyond the catalogue starts no handler: the
/// run ends with one error line and nothing else.
pub proof fn selection_beyond_catalogue(select: &Select, line: Seq<char>, n: nat)
    requires
        number_of(line) == Some(n),
        n > select.options@.len(),
    ensures
        select.selection(line) == last_step(
            seq![error_line("Please only select a number from the given options"@, None)],
        ),
        select.selection(line).output.len() == 1,
        select.selection(line).next is None,
{
}

/// Where every element maps to something, a filtering map keeps them all.
proof fn filter_map_keeps_all<A, B>(s: Seq<A>, f: spec_fn(A) -> Option<B>)
    requires
        forall|i: int| 0 <= i < s.len() ==> f(#[trigger] s[i]) is Some,
    ensures
        s.filter_map(f) == Seq::new(s.len(), |i: int| f(s[i])->0),
    decreases s.len(),
{
    if s.len() > 0 {
        let rest = s.drop_last();
        assert forall|i: int| 0 <= i < rest.len() implies f(#[trigger] rest[i]) is Some by {
            assert(rest[i] == s[i]);
        }
        filter_map_keeps_all(rest, f);
        assert(s.filter_map(f) =~= Seq::new(s.len(), |i: int| f(s[i])->0));
    } else {
        assert(s.filter_map(f) =~= Seq::new(s.len(), |i: int| f(s[i])->0));
    }
}

/// The list of the full catalogue holds the name of every tool, one to a
/// line, in the order of the catalogue, and no line for the entry that
/// leaves.
pub proof fn catalogue_listing(select: &Select)
    requires
        select.is_catalogue(),
    ensures
        select.listing() == Kind::all().map_values(|k: Kind| plain_line(k.name())),
{
    let listed = |o: SelectOption| o.listed();
    let n = Kind::all().len() as int;
    let tools = select.options@.take(n);
    assert(select.options@.drop_last() =~= tools);
    assert(select.options@.last().leaves());
    assert(listed(select.options@.last()) is None);
    assert(select.options@.filter_map(listed) == tools.filter_map(listed));
    assert forall|i: int| 0 <= i < tools.len() implies listed(#[trigger] tools[i]) is Some by {
        assert(select.options@[i].offers(Kind::all()[i]));
    }
    filter_map_keeps_all(tools, listed);
    assert forall|i: int| 0 <= i < n implies listed(tools[i])->0 == plain_line(
        Kind::all()[i].name(),
    ) by {
        assert(select.options@[i].offers(Kind::all()[i]));
    }
    assert(select.listing() =~= Kind::all().map_values(|k: Kind| plain_line(k.name())));
}

/// Plain output takes the label off a result: the line is the data alone.
pub proof fn plain_success_has_no_label(data: Seq<char>, label: Option<Seq<char>>)
    ensures
        success_line(data, label, true) == plain_line(data),
        !success_line(data, label, true).labelled(),
        success_line(data, label, true).text() == data,
        success_line(data, label, false).labelled(),
{
}

/// An error line carries its label whatever is asked of the output: the
/// label given, or `Error`.
pub proof fn error_is_always_labelled(data: Seq<char>, label: Option<Seq<char>>)
    ensures
        error_line(data, label).labelled(),
        error_line(data, label) matches LineView::Labelled { label: l, data: d, .. } && d == data
            && l == (match label {
            Some(given) => given,
            None => "Error"@,
        }),
{
}

/// A text without a dot is no token: the report is one error line and
/// nothing else, whatever was asked for.
pub proof fn text_without_dot_is_no_token(
    input: Seq<char>,
    header: bool,
    payload: bool,
    plain: bool,
)
    requires
        !input.contains('.'),
    ensures
        jwt_lines(input, header, payload, plain) == seq![
            error_line("Invalid JWT token"@, None),
        ],
{
    dot_index_is_first(input, input.len() as int);
}

/// A token of three parts, asked for without flags, reports its first part
/// decoded as the header and its second part decoded as the payload, in this
/// order.
pub proof fn token_reports_header_and_payload(
    first: Seq<char>,
    second: Seq<char>,
    third: Seq<char>,
    plain: bool,
)
    requires
        !first.contains('.'),
        !second.contains('.'),
    ensures
        jwt_lines(first + seq!['.'] + second + seq!['.'] + third, false, false, plain)
            == report_lines(
            base_64_text(first),
            Some("Header Data"@),
            Some("Error decoding header"@),
            plain,
        ) + report_lines(
            base_64_text(second),
            Some("Payload Data"@),
            Some("Error decoding payload"@),
            plain,
        ),
{
    let input = first + seq!['.'] + second + seq!['.'] + third;
    let i = first.len() as int;
    assert forall|j: int| 0 <= j < i implies input[j] != '.' by {
        assert(input[j] == first[j]);
        assert(first.contains(first[j]));
    }
    assert(input[i] == '.');
    dot_index_is_first(input, i);
    let rest = input.skip(i + 1);
    assert(rest =~= second + seq!['.'] + third);
    let k = second.len() as int;
    assert forall|j: int| 0 <= j < k implies rest[j] != '.' by {
        assert(rest[j] == second[j]);
        assert(second.contains(second[j]));
    }
    assert(rest[k] == '.');
    dot_index_is_first(rest, k);
    assert(input.take(i) =~= first);
    assert(rest.take(k) =~= second);
    assert(token_parts(input) == Some((first, second)));
}

/// What a multi-line capture has gathered after a run of lines, none of
/// which is the end line: each line in order, with a newline after it.
pub open spec fn gathered_from(lines: Seq<Seq<char>>) -> Seq<char>
    decreases lines.len(),
{
    if lines.len() == 0 {
        Seq::empty()
    } else {
        gathered_from(lines.drop_last()) + lines.last() + "\n"@
    }
}

/// A multi-line capture that has taken some lines, none of them the end
/// line, and then meets the end line, yields those lines, each with its
/// newline, and not the end line.
pub proof fn capture_ends_at_end_line(lines: Seq<Seq<char>>, end_line: Seq<char>)
    requires
        forall|i: int| 0 <= i < lines.len() ==> lines[i] != end_line,
    ensures
        capture_step(gathered_from(lines), Some(end_line), true, end_line) == (CaptureView::Complete {
            input: gathered_from(lines),
        }),
        captured(lines.push(end_line), end_line) == Some(gathered_from(lines)),
        forall|line: Seq<char>|
            line != end_line ==> #[trigger] capture_step(
                gathered_from(lines),
                Some(line),
                true,
                end_line,
            )
                == (CaptureView::Partial { gathered: gathered_from(lines.push(line)) }),
    decreases lines.len(),
{
    assert forall|line: Seq<char>| line != end_line implies #[trigger] capture_step(
        gathered_from(lines),
        Some(line),
        true,
        end_line,
    ) == (CaptureView::Partial { gathered: gathered_from(lines.push(line)) }) by {
        assert(lines.push(line).drop_last() =~= lines);
    }
    captured_of_lines(lines, end_line);
}

/// A multi-line capture that has taken some lines, none of them the end
/// line, and then meets the end of the input, yields those lines, each with
/// its newline.
pub proof fn capture_ends_at_end_of_input(lines: Seq<Seq<char>>, end_line: Seq<char>)
    ensures
        capture_step(gathered_from(lines), None, true, end_line) == (CaptureView::Complete {
            input: gathered_from(lines),
        }),
{
}

/// The text captured from lines that end with the end line.
proof fn captured_of_lines(lines: Seq<Seq<char>>, end_line: Seq<char>)
    requires
        forall|i: int| 0 <= i < lines.len() ==> lines[i] != end_line,
    ensures
        captured(lines.push(end_line), end_line) == Some(gathered_from(lines)),
    decreases lines.len(),
{
    let all = lines.push(end_line);
    if lines.len() == 0 {
        assert(all[0] == end_line);
    } else {
        let rest = lines.drop_first();
        assert(all.drop_first() =~= rest.push(end_line));
        assert forall|i: int| 0 <= i < rest.len() implies rest[i] != end_line by {
            assert(rest[i] == lines[i + 1]);
        }
        captured_of_lines(rest, end_line);
        gathered_from_front(lines);
        assert(all[0] == lines[0]);
    }
}

/// What was gathered, read from the front.
proof fn gathered_from_front(lines: Seq<Seq<char>>)
    requires
        lines.len() > 0,
    ensures
        gathered_from(lines) == lines[0] + "\n"@ + gathered_from(lines.drop_first()),
    decreases lines.len(),
{
    if lines.len() == 1 {
        assert(lines.drop_last() =~= Seq::<Seq<char>>::empty());
        assert(lines.drop_first() =~= Seq::<Seq<char>>::empty());
        assert(gathered_from(lines) =~= lines[0] + "\n"@ + gathered_from(lines.drop_first()));
    } else {
        let init = lines.drop_last();
        gathered_from_front(init);
        assert(init.drop_first() =~= lines.drop_first().drop_last());
        assert(gathered_from(lines) =~= lines[0] + "\n"@ + gathered_from(lines.drop_first()));
    }
}

/// The menu shows the question as it is, then every entry once under its
/// number, counted from one, the entry that leaves too, then one empty line.
pub proof fn menu_lists_every_entry_once(select: &Select)
    ensures
        select.menu().len() == select.options@.len() + 2,
        select.menu()[0] == plain_line(select.message@),
        forall|i: int|
            0 <= i < select.options@.len() ==> #[trigger] select.menu()[i + 1]
                == (LineView::Numbered {
                number: (i + 1) as nat,
                message: select.options@[i].message@,
            }),
        select.menu()[select.options@.len() as int + 1] == plain_line(""@),
{
}

/// Plain output takes the label off every line of a URL report.
pub proof fn plain_url_report_has_no_labels(parts: UrlPartsView)
    ensures
        url_lines(Ok(parts), true).len() == 8,
        forall|i: int| 0 <= i < 8 ==> !(#[trigger] url_lines(Ok(parts), true)[i]).labelled(),
        url_lines(Ok(parts), true)[0] == plain_line(parts.scheme),
        url_lines(Ok(parts), true)[5] == plain_line(parts.path),
{
}

/// A text with a malformed percent escape decodes to no text: the report is
/// one error line, in plain output too.
pub proof fn malformed_escape_gives_one_error(text: Seq<char>, plain: bool)
    requires
        !well_escaped(text),
    ensures
        url_decoded(text) is Err,
        report_lines(url_decoded(text), None, Some("Error decoding URL encoded string"@), plain)
            == seq![
            error_line("invalid percent-encoding"@, Some("Error decoding URL encoded string"@)),
        ],
{
}

} // verus!
