//! The catalogue of tools and the dispatch of one request.
//!
//! A run is a short exchange. `dispatch` opens it; each answer is a `Step`:
//! the lines to print, and what the line that is read next will be for.
//! `resume` takes that line and gives the next step, until none is pending.

use crate::args::{Args, Kind, Tools};
use crate::output::{
    capture_step, error, error_line, plain_line, print, read_input, views, Capture, CaptureView,
    Line, LineView,
};
use crate::text::{number_of, parse_number};
use vstd::prelude::*;

verus! {

/// What a catalogue entry runs.
#[derive(Clone, Copy, Debug, PartialEq, Eq, Structural)]
pub enum Handler {
    /// One of the tools.
    Tool(Kind),
    /// Nothing: the entry that leaves.
    Quit,
}

/// One entry of the catalogue.
#[derive(Clone, Debug)]
pub struct SelectOption<'a> {
    /// The label shown in the menu.
    pub message: &'a str,
    /// The request that the entry answers to; the entry that leaves has none.
    pub arg_name: Option<Tools>,
    /// What the entry runs.
    pub handle: Handler,
}

/// The catalogue, with the question it asks and the request it serves.
#[derive(Clone, Debug)]
pub struct Select<'a> {
    pub options: Vec<SelectOption<'a>>,
    pub message: &'a str,
    pub args: &'a Args,
}

/// What the next line of input is for.
#[derive(Clone, Debug, PartialEq, Eq)]
pub enum Pending {
    /// The number of a menu entry.
    Selection,
    /// Input for a tool; `gathered` holds the lines of a multi-line input
    /// that came before.
    Input { kind: Kind, gathered: String },
}

/// One step of a run.
#[derive(Clone, Debug, PartialEq, Eq)]
pub struct Step {
    /// The lines to print, in order.
    pub output: Vec<Line>,
    /// What to read a line for after printing; `None` where the run is over.
    pub next: Option<Pending>,
}

/// What a pending read holds, as mathematical text.
pub enum PendingView {
    Selection,
    Input { kind: Kind, gathered: Seq<char> },
}

/// What a step holds, as mathematical text.
pub struct StepView {
    pub output: Seq<LineView>,
    pub next: Option<PendingView>,
}

impl View for Pending {
    type V = PendingView;

    open spec fn view(&self) -> PendingView {
        match self {
            Pending::Selection => PendingView::Selection,
            Pending::Input { kind, gathered } => PendingView::Input {
                kind: *kind,
                gathered: gathered@,
            },
        }
    }
}

impl View for Step {
    type V = StepView;

    open spec fn view(&self) -> StepView {
        StepView {
            output: views(self.output@),
            next: match self.next {
                Some(p) => Some(p@),
                None => None,
            },
        }
    }
}

/// The step that ends a run with some lines.
pub open spec fn last_step(output: Seq<LineView>) -> StepView {
    StepView { output, next: None }
}

impl Args {
    /// Whether the text that came with the request, if it is meant for the
    /// tool that escapes HTML, is one that this tool can take.
    pub open spec fn fits(&self) -> bool {
        match self.spec_payload(Kind::HTMLEscape) {
            Some(d) => Kind::HTMLEscape.admits(d),
            None => true,
        }
    }
}

impl Handler {
    /// The first step of a handler. A tool works on the text that came with
    /// the request, where the request names that tool and brings one;
    /// else it asks for the text. The entry that leaves does nothing.
    pub open spec fn opening(self, a: &Args) -> StepView {
        match self {
            Handler::Quit => last_step(Seq::empty()),
            Handler::Tool(kind) => match a.spec_payload(kind) {
                Some(input) => last_step(kind.lines(a, input)),
                None => StepView {
                    output: seq![plain_line(kind.spec_prompt())],
                    next: Some(PendingView::Input { kind, gathered: ""@ }),
                },
            },
        }
    }

    /// Starts a handler.
    pub fn begin(self, a: &Args) -> (step: Step)
        requires
            a.fits(),
        ensures
            step@ == self.opening(a),
    {
        match self {
            Handler::Quit => {
                let step = Step { output: Vec::new(), next: None };
                assert(step@.output =~= Seq::empty());
                step
            },
            Handler::Tool(kind) => match a.payload(kind) {
                Some(input) => Step { output: kind.apply(a, input), next: None },
                None => {
                    let mut output: Vec<Line> = Vec::new();
                    output.push(print(kind.prompt()));
                    let step = Step {
                        output,
                        next: Some(Pending::Input { kind, gathered: "".to_owned() }),
                    };
                    assert(step@.output =~= seq![plain_line(kind.spec_prompt())]);
                    step
                },
            },
        }
    }
}

impl Kind {
    /// The step that follows a line typed for a tool: the tool's report,
    /// once the input is complete; else a wait for the next line.
    pub open spec fn answer(self, a: &Args, gathered: Seq<char>, line: Seq<char>) -> StepView {
        match capture_step(gathered, Some(line), self.spec_multi_line(), "END"@) {
            CaptureView::Complete { input } => last_step(self.lines(a, input)),
            CaptureView::Partial { gathered } => StepView {
                output: Seq::empty(),
                next: Some(PendingView::Input { kind: self, gathered }),
            },
        }
    }

    /// Takes a line typed for a tool.
    pub fn feed(self, a: &Args, gathered: String, line: &str) -> (step: Step)
        requires
            self.admits(line@),
        ensures
            step@ == self.answer(a, gathered@, line@),
    {
        match read_input(gathered, Some(line), Some(self.multi_line()), Some("END")) {
            Capture::Complete { input } => Step {
                output: self.apply(a, input.as_str()),
                next: None,
            },
            Capture::Partial { gathered } => {
                let step = Step {
                    output: Vec::new(),
                    next: Some(Pending::Input { kind: self, gathered }),
                };
                assert(step@.output =~= Seq::empty());
                step
            },
        }
    }
}

impl Kind {
    /// The step that follows the end of the input while a tool waits for
    /// text: the tool's report on what was gathered, which is nothing where
    /// no line came.
    pub open spec fn ending(self, a: &Args, gathered: Seq<char>) -> StepView {
        last_step(self.lines(a, gathered))
    }

    /// Takes the end of the input for a tool.
    pub fn close(self, a: &Args, gathered: String) -> (step: Step)
        requires
            self.admits(gathered@),
        ensures
            step@ == self.ending(a, gathered@),
            step@.next is None,
    {
        match read_input(gathered, None, Some(self.multi_line()), Some("END")) {
            Capture::Complete { input } => Step {
                output: self.apply(a, input.as_str()),
                next: None,
            },
            Capture::Partial { gathered } => Step {
                output: self.apply(a, gathered.as_str()),
                next: None,
            },
        }
    }
}

impl<'a> SelectOption<'a> {
    /// Whether the entry answers to requests for a tool.
    pub open spec fn names(&self, kind: Kind) -> bool {
        match self.arg_name {
            Some(tag) => tag.kind() == kind,
            None => false,
        }
    }

    /// The line that lists the entry, where it answers to a request.
    pub open spec fn listed(&self) -> Option<LineView> {
        match self.arg_name {
            Some(tag) => Some(plain_line(tag.name())),
            None => None,
        }
    }

    /// Whether the entry is the catalogue's own for a tool: under the tool's
    /// label, answering to the tool's request with nothing attached, and
    /// running the tool.
    pub open spec fn offers(&self, kind: Kind) -> bool {
        &&& self.message@ == kind.spec_label()
        &&& self.arg_name == Some(kind.spec_tag())
        &&& self.handle == Handler::Tool(kind)
    }

    /// Whether the entry is the one that leaves.
    pub open spec fn leaves(&self) -> bool {
        &&& self.message@ == "Quit"@
        &&& self.arg_name is None
        &&& self.handle == Handler::Quit
    }

    /// The catalogue's entry for a tool.
    pub fn tool(kind: Kind) -> (option: SelectOption<'static>)
        ensures
            option.offers(kind),
    {
        SelectOption { message: kind.label(), arg_name: Some(kind.tag()), handle: Handler::Tool(kind) }
    }
}

impl<'a> Select<'a> {
    /// Whether this is the full catalogue: every tool once, in order, then
    /// the entry that leaves, under the question of the menu.
    pub open spec fn is_catalogue(&self) -> bool {
        &&& self.message@ == "What do you want to do?"@
        &&& self.options@.len() == Kind::all().len() + 1
        &&& forall|i: int|
            0 <= i < Kind::all().len() ==> (#[trigger] self.options@[i]).offers(Kind::all()[i])
        &&& self.options@[Kind::all().len() as int].leaves()
    }

    /// The full catalogue for a request.
    pub fn new(args: &'a Args) -> (select: Select<'a>)
        ensures
            select.is_catalogue(),
            select.args == args,
    {
        let mut options: Vec<SelectOption<'a>> = Vec::new();
        options.push(SelectOption::tool(Kind::Base64Decode));
        options.push(SelectOption::tool(Kind::Base64Encode));
        options.push(SelectOption::tool(Kind::URLDecode));
        options.push(SelectOption::tool(Kind::URLEncode));
        options.push(SelectOption::tool(Kind::URLParse));
        options.push(SelectOption::tool(Kind::HTMLUnescape));
        options.push(SelectOption::tool(Kind::HTMLEscape));
        options.push(SelectOption::tool(Kind::JWTDecode));
        options.push(SelectOption::tool(Kind::FormatJSON));
        options.push(SelectOption::tool(Kind::FormatYAML));
        options.push(SelectOption::tool(Kind::YamlToJSON));
        options.push(SelectOption::tool(Kind::TomlToJSON));
        options.push(SelectOption { message: "Quit", arg_name: None, handle: Handler::Quit });
        Select { options, message: "What do you want to do?", args }
    }

    /// Whether the entry at a position is the first that answers to
    /// requests for a tool.
    pub open spec fn first_for(&self, kind: Kind, i: int) -> bool {
        &&& 0 <= i < self.options@.len()
        &&& self.options@[i].names(kind)
        &&& forall|j: int| 0 <= j < i ==> !(#[trigger] self.options@[j]).names(kind)
    }

    /// The position of the entry that a request resolves to: the first
    /// whose tag names the same tool. No request resolves to no entry.
    pub open spec fn resolved(&self, arg: Option<Tools>) -> Option<int> {
        match arg {
            Some(tag) => if exists|i: int| self.first_for(tag.kind(), i) {
                Some(choose|i: int| self.first_for(tag.kind(), i))
            } else {
                None
            },
            None => None,
        }
    }

    /// Only one entry is the first that answers to requests for a tool.
    pub proof fn first_is_unique(&self, kind: Kind, i: int)
        requires
            self.first_for(kind, i),
        ensures
            (exists|k: int| self.first_for(kind, k)),
            (choose|k: int| self.first_for(kind, k)) == i,
    {
        let c = choose|k: int| self.first_for(kind, k);
        assert(self.first_for(kind, c));
        if c < i {
            assert(!self.options@[c].names(kind));
        }
        if i < c {
            assert(!self.options@[i].names(kind));
        }
    }

    /// Resolves a request to the first entry whose tag names the same tool,
    /// whatever the request carries.
    pub fn arg_match(&self, arg: &Option<&Tools>) -> (found: Option<&SelectOption<'a>>)
        ensures
            arg is None ==> found is None,
            match found {
                Some(option) => exists|i: int|
                    self.first_for((*arg)->0.kind(), i) && *option == #[trigger] self.options@[i],
                None => arg matches Some(tag) ==> forall|i: int|
                    0 <= i < self.options@.len() ==> !(#[trigger] self.options@[i]).names(
                        tag.kind(),
                    ),
            },
            match self.resolved(tag_of(*arg)) {
                Some(i) => found == Some(&self.options@[i]),
                None => found is None,
            },
    {
        match arg {
            None => None,
            Some(tag) => {
                let kind = tag.kind();
                let mut i: usize = 0;
                while i < self.options.len()
                    invariant
                        i <= self.options@.len(),
                        *arg == Some(*tag),
                        kind == tag.kind(),
                        forall|j: int| 0 <= j < i ==> !(#[trigger] self.options@[j]).names(kind),
                    decreases self.options@.len() - i,
                {
                    let option = &self.options[i];
                    let hit = match &option.arg_name {
                        Some(name) => tag.same_kind(name),
                        None => false,
                    };
                    if hit {
                        proof {
                            self.first_is_unique(kind, i as int);
                        }
                        return Some(option);
                    }
                    i = i + 1;
                }
                None
            },
        }
    }

    /// The lines that list the tools: the name of each entry that answers
    /// to a request, in the order of the catalogue.
    pub open spec fn listing(&self) -> Seq<LineView> {
        self.options@.filter_map(|o: SelectOption<'a>| o.listed())
    }

    /// Lists the tools that can be asked for by name.
    pub fn list_options(&self) -> (lines: Vec<Line>)
        ensures
            views(lines@) == self.listing(),
    {
        let mut lines: Vec<Line> = Vec::new();
        let ghost listed = |o: SelectOption<'a>| o.listed();
        let mut i: usize = 0;
        assert(self.options@.take(0).filter_map(listed) =~= Seq::empty());
        while i < self.options.len()
            invariant
                i <= self.options@.len(),
                listed == (|o: SelectOption<'a>| o.listed()),
                views(lines@) == self.options@.take(i as int).filter_map(listed),
            decreases self.options@.len() - i,
        {
            let option = &self.options[i];
            let ghost before = views(lines@);
            match &option.arg_name {
                Some(tag) => {
                    let name = tag.to_string();
                    lines.push(print(name.as_str()));
                    assert(views(lines@) =~= before + seq![plain_line(tag.name())]);
                },
                None => {},
            }
            assert(self.options@.take(i + 1).drop_last() =~= self.options@.take(i as int));
            i = i + 1;
        }
        assert(self.options@.take(i as int) =~= self.options@);
        lines
    }

    /// The menu: the question, then each entry under its number, counted
    /// from one, then an empty line.
    pub open spec fn menu(&self) -> Seq<LineView> {
        seq![plain_line(self.message@)] + Seq::new(
            self.options@.len(),
            |i: int|
                LineView::Numbered {
                    number: (i + 1) as nat,
                    message: self.options@[i].message@,
                },
        ) + seq![plain_line(""@)]
    }

    /// Shows the menu and waits for a selection.
    pub fn numbered_list(&self) -> (step: Step)
        ensures
            step@ == (StepView { output: self.menu(), next: Some(PendingView::Selection) }),
    {
        let mut output: Vec<Line> = Vec::new();
        output.push(print(self.message));
        let ghost head = seq![plain_line(self.message@)];
        assert(views(output@) =~= head);
        let mut i: usize = 0;
        while i < self.options.len()
            invariant
                i <= self.options@.len(),
                head == seq![plain_line(self.message@)],
                views(output@) == head + Seq::new(
                    i as nat,
                    |k: int|
                        LineView::Numbered {
                            number: (k + 1) as nat,
                            message: self.options@[k].message@,
                        },
                ),
            decreases self.options@.len() - i,
        {
            let option = &self.options[i];
            let ghost before = views(output@);
            let entry = Line::Numbered { number: i + 1, message: option.message.to_owned() };
            assert(entry@ == LineView::Numbered {
                number: (i + 1) as nat,
                message: self.options@[i as int].message@,
            });
            output.push(entry);
            assert(views(output@) =~= before.push(entry@));
            i = i + 1;
            assert(views(output@) =~= head + Seq::new(
                i as nat,
                |k: int|
                    LineView::Numbered {
                        number: (k + 1) as nat,
                        message: self.options@[k].message@,
                    },
            ));
        }
        let ghost before = views(output@);
        output.push(print(""));
        assert(views(output@) =~= before.push(plain_line(""@)));
        let step = Step { output, next: Some(Pending::Selection) };
        assert(step@.output =~= self.menu());
        step
    }

    /// The step that follows a selection. A line that spells the number of
    /// an entry, counted from one, starts that entry's handler. Any other
    /// line, a number beyond the catalogue too, starts none: the step is
    /// one error line and the run is over.
    pub open spec fn selection(&self, line: Seq<char>) -> StepView {
        match number_of(line) {
            Some(n) => if 1 <= n <= self.options@.len() {
                self.options@[n - 1].handle.opening(self.args)
            } else {
                last_step(seq![error_line("Please only select a number from the given options"@, None)])
            },
            None => last_step(
                seq![error_line("Please only select a number from the given options"@, None)],
            ),
        }
    }

    /// Takes the line typed at the menu.
    pub fn pick(&self, line: &str) -> (step: Step)
        requires
            self.args.fits(),
        ensures
            step@ == self.selection(line@),
    {
        let chosen = match parse_number(line) {
            Some(n) => if 1 <= n && n <= self.options.len() {
                Some(n)
            } else {
                None
            },
            None => None,
        };
        match chosen {
            Some(n) => self.options[n - 1].handle.begin(self.args),
            None => {
                let mut output: Vec<Line> = Vec::new();
                output.push(error("Please only select a number from the given options", None));
                let step = Step { output, next: None };
                assert(step@.output =~= seq![
                    error_line("Please only select a number from the given options"@, None),
                ]);
                step
            },
        }
    }

    /// The first step of a run. Asked to list, it lists the tools and no
    /// more. Else the
    /// request, where it resolves to an entry, starts that entry's handler;
    /// where it does not, the menu is shown.
    pub open spec fn opening(&self) -> StepView {
        if self.args.list {
            last_step(self.listing())
        } else {
            match self.resolved(self.args.tool) {
                Some(i) => self.options@[i].handle.opening(self.args),
                None => StepView { output: self.menu(), next: Some(PendingView::Selection) },
            }
        }
    }

    /// Opens a run.
    pub fn dispatch(&self) -> (step: Step)
        requires
            self.args.fits(),
        ensures
            step@ == self.opening(),
    {
        if self.args.list {
            Step { output: self.list_options(), next: None }
        } else {
            let found = match &self.args.tool {
                Some(tag) => {
                    assert(tag_of(Some(tag)) == self.args.tool);
                    self.arg_match(&Some(tag))
                },
                None => None,
            };
            match found {
                Some(option) => option.handle.begin(self.args),
                None => self.numbered_list(),
            }
        }
    }

    /// The step that follows a line that was read.
    pub open spec fn answer(&self, pending: PendingView, line: Seq<char>) -> StepView {
        match pending {
            PendingView::Selection => self.selection(line),
            PendingView::Input { kind, gathered } => kind.answer(self.args, gathered, line),
        }
    }

    /// Takes the line that a step asked for.
    pub fn resume(&self, pending: Pending, line: &str) -> (step: Step)
        requires
            self.args.fits(),
            pending matches Pending::Input { kind, .. } ==> kind.admits(line@),
        ensures
            step@ == self.answer(pending@, line@),
    {
        match pending {
            Pending::Selection => self.pick(line),
            Pending::Input { kind, gathered } => kind.feed(self.args, gathered, line),
        }
    }

    /// The step that follows the end of the input. Where a selection was
    /// awaited, none came: one error line. Where a tool awaited its text,
    /// the tool runs on what was gathered. Either way the run is over.
    pub open spec fn closing(&self, pending: PendingView) -> StepView {
        match pending {
            PendingView::Selection => last_step(
                seq![error_line("Please only select a number from the given options"@, None)],
            ),
            PendingView::Input { kind, gathered } => kind.ending(self.args, gathered),
        }
    }

    /// Takes the end of the input in place of the line that a step asked
    /// for.
    pub fn finish(&self, pending: Pending) -> (step: Step)
        requires
            pending matches Pending::Input { kind, gathered } ==> kind.admits(gathered@),
        ensures
            step@ == self.closing(pending@),
            step@.next is None,
    {
        match pending {
            Pending::Selection => {
                let mut output: Vec<Line> = Vec::new();
                output.push(error("Please only select a number from the given options", None));
                let step = Step { output, next: None };
                assert(step@.output =~= seq![
                    error_line("Please only select a number from the given options"@, None),
                ]);
                step
            },
            Pending::Input { kind, gathered } => kind.close(self.args, gathered),
        }
    }
}

/// The request as a value, whether it came by reference or not.
pub open spec fn tag_of(arg: Option<&Tools>) -> Option<Tools> {
    match arg {
        Some(tag) => Some(*tag),
        None => None,
    }
}

} // verus!
