//! Report lines, and the capture of typed input.
//!
//! A line is kept in parts, so that whoever prints it can colour the label or
//! the number without taking the text apart again.

use crate::text::{decimal, decimal_text};
use vstd::prelude::*;

verus! {

/// The colour in which a label or a number is shown.
#[derive(Clone, Copy, Debug, PartialEq, Eq, Structural)]
pub enum Colour {
    Green,
    Red,
    Yellow,
}

/// One line of output.
#[derive(Clone, Debug, PartialEq, Eq)]
pub enum Line {
    /// Bare text.
    Plain { text: String },
    /// A coloured label, a colon and a space, then the data.
    Labelled { colour: Colour, label: String, data: String },
    /// A coloured number, a closing bracket and a space, then the message.
    Numbered { number: usize, message: String },
}

/// What a line holds, as mathematical text.
pub enum LineView {
    Plain { text: Seq<char> },
    Labelled { colour: Colour, label: Seq<char>, data: Seq<char> },
    Numbered { number: nat, message: Seq<char> },
}

impl LineView {
    /// The line as it reads without colour.
    pub open spec fn text(self) -> Seq<char> {
        match self {
            LineView::Plain { text } => text,
            LineView::Labelled { label, data, .. } => label + ": "@ + data,
            LineView::Numbered { number, message } => decimal_text(number) + ") "@ + message,
        }
    }

    /// Whether the line carries a label.
    pub open spec fn labelled(self) -> bool {
        self is Labelled
    }
}

impl View for Line {
    type V = LineView;

    open spec fn view(&self) -> LineView {
        match self {
            Line::Plain { text } => LineView::Plain { text: text@ },
            Line::Labelled { colour, label, data } => LineView::Labelled {
                colour: *colour,
                label: label@,
                data: data@,
            },
            Line::Numbered { number, message } => LineView::Numbered {
                number: *number as nat,
                message: message@,
            },
        }
    }
}

impl Line {
    /// The line as it reads without colour.
    pub fn text(&self) -> (text: String)
        ensures
            text@ == self@.text(),
    {
        match self {
            Line::Plain { text } => text.clone(),
            Line::Labelled { label, data, .. } => label.clone().concat(": ").concat(data.as_str()),
            Line::Numbered { number, message } => decimal(*number).concat(") ").concat(
                message.as_str(),
            ),
        }
    }
}

/// The views of a run of lines, in order.
pub open spec fn views(lines: Seq<Line>) -> Seq<LineView> {
    lines.map_values(|l: Line| l@)
}

/// The view of an optional text.
pub open spec fn text_of(s: Option<&str>) -> Option<Seq<char>> {
    match s {
        Some(t) => Some(t@),
        None => None,
    }
}

/// A line of bare text.
pub open spec fn plain_line(text: Seq<char>) -> LineView {
    LineView::Plain { text }
}

/// The line that reports a result: the data alone where plain output is
/// asked for, else the data under a green label, `Result` unless one is given.
pub open spec fn success_line(data: Seq<char>, label: Option<Seq<char>>, plain: bool) -> LineView {
    if plain {
        LineView::Plain { text: data }
    } else {
        LineView::Labelled {
            colour: Colour::Green,
            label: match label {
                Some(l) => l,
                None => "Result"@,
            },
            data,
        }
    }
}

/// The line that reports a failure: the data under a red label, `Error`
/// unless one is given.
pub open spec fn error_line(data: Seq<char>, label: Option<Seq<char>>) -> LineView {
    LineView::Labelled {
        colour: Colour::Red,
        label: match label {
            Some(l) => l,
            None => "Error"@,
        },
        data,
    }
}

/// A line of bare text.
pub fn print(msg: &str) -> (line: Line)
    ensures
        line@ == plain_line(msg@),
{
    Line::Plain { text: msg.to_owned() }
}

/// Reports a result. Plain output drops the label altogether.
pub fn success(data: &str, label: Option<&str>, plain: bool) -> (line: Line)
    ensures
        line@ == success_line(data@, text_of(label), plain),
        plain ==> !line@.labelled() && line@.text() == data@,
{
    if !plain {
        let l = match label {
            Some(l) => l,
            None => "Result",
        };
        Line::Labelled { colour: Colour::Green, label: l.to_owned(), data: data.to_owned() }
    } else {
        Line::Plain { text: data.to_owned() }
    }
}

/// Reports a failure. The label is always there: no flag takes it away.
pub fn error(data: &str, label: Option<&str>) -> (line: Line)
    ensures
        line@ == error_line(data@, text_of(label)),
        line@.labelled(),
{
    let l = match label {
        Some(l) => l,
        None => "Error",
    };
    Line::Labelled { colour: Colour::Red, label: l.to_owned(), data: data.to_owned() }
}

/// Whether two texts are the same.
pub fn same_text(a: &str, b: &str) -> (same: bool)
    ensures
        same == (a@ == b@),
{
    a.to_owned() == b.to_owned()
}

/// Where the capture of an input stands after one more line.
#[derive(Clone, Debug, PartialEq, Eq)]
pub enum Capture {
    /// The input is complete.
    Complete { input: String },
    /// More lines are wanted; this is what was gathered so far.
    Partial { gathered: String },
}

/// What a capture holds, as mathematical text.
pub enum CaptureView {
    Complete { input: Seq<char> },
    Partial { gathered: Seq<char> },
}

impl View for Capture {
    type V = CaptureView;

    open spec fn view(&self) -> CaptureView {
        match self {
            Capture::Complete { input } => CaptureView::Complete { input: input@ },
            Capture::Partial { gathered } => CaptureView::Partial { gathered: gathered@ },
        }
    }
}

/// One step of input capture. The step takes the next line, or `None`
/// where the input has ended. A single-line input is the line itself. A
/// multi-line input ends at the line that equals the end line, which is left
/// out; every other line is added to what was gathered, with a newline. Where
/// the input ends, the capture ends with what was gathered.
pub open spec fn capture_step(
    gathered: Seq<char>,
    line: Option<Seq<char>>,
    multi_line: bool,
    end_line: Seq<char>,
) -> CaptureView {
    match line {
        None => CaptureView::Complete { input: gathered },
        Some(line) => if !multi_line {
            CaptureView::Complete { input: line }
        } else if line == end_line {
            CaptureView::Complete { input: gathered }
        } else {
            CaptureView::Partial { gathered: gathered + line + "\n"@ }
        },
    }
}

/// The text that a multi-line capture yields from the lines typed, or `None`
/// while the end line has not come.
pub open spec fn captured(lines: Seq<Seq<char>>, end_line: Seq<char>) -> Option<Seq<char>>
    decreases lines.len(),
{
    if lines.len() == 0 {
        None
    } else if lines[0] == end_line {
        Some(Seq::empty())
    } else {
        match captured(lines.drop_first(), end_line) {
            Some(rest) => Some(lines[0] + "\n"@ + rest),
            None => None,
        }
    }
}

/// Takes one typed line, or the end of the input, into an input that is
/// being captured. `multi_line` defaults to single-line capture and
/// `end_line` to the empty line.
pub fn read_input(
    gathered: String,
    line: Option<&str>,
    multi_line: Option<bool>,
    end_line: Option<&str>,
) -> (capture: Capture)
    ensures
        capture@ == capture_step(
            gathered@,
            text_of(line),
            multi_line == Some(true),
            match end_line {
                Some(e) => e@,
                None => ""@,
            },
        ),
{
    let ml = match multi_line {
        Some(b) => b,
        None => false,
    };
    let el = match end_line {
        Some(e) => e,
        None => "",
    };
    match line {
        None => Capture::Complete { input: gathered },
        Some(line) => if ml {
            if same_text(line, el) {
                Capture::Complete { input: gathered }
            } else {
                Capture::Partial { gathered: gathered.concat(line).concat("\n") }
            }
        } else {
            Capture::Complete { input: line.to_owned() }
        },
    }
}

} // verus!
