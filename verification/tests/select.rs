use devtools::args::{Args, Kind, Tools};
use devtools::output::{Colour, Line};
use devtools::select::{Handler, Pending, Select, SelectOption, Step};

fn request(tool: Option<Tools>) -> Args {
    Args { tool, list: false, plain: false }
}

fn result(data: &str) -> Line {
    Line::Labelled { colour: Colour::Green, label: "Result".to_string(), data: data.to_string() }
}

fn failure(label: &str, data: &str) -> Line {
    Line::Labelled { colour: Colour::Red, label: label.to_string(), data: data.to_string() }
}

fn bare_text(text: &str) -> Line {
    Line::Plain { text: text.to_string() }
}

fn out_of_range() -> Vec<Line> {
    vec![failure("Error", "Please only select a number from the given options")]
}

fn every_tag(data: Option<&str>) -> Vec<Tools> {
    let data = data.map(|d| d.to_string());
    vec![
        Tools::Base64Decode { data: data.clone() },
        Tools::Base64Encode { data: data.clone() },
        Tools::URLDecode { data: data.clone() },
        Tools::URLEncode { data: data.clone() },
        Tools::URLParse { data: data.clone() },
        Tools::HTMLUnescape { data: data.clone() },
        Tools::HTMLEscape { data: data.clone() },
        Tools::JWTDecode { data: data.clone(), header: true, payload: false },
        Tools::FormatJSON { data: data.clone() },
        Tools::FormatYAML { data: data.clone() },
        Tools::YamlToJSON { data: data.clone() },
        Tools::TomlToJSON { data: data.clone() },
    ]
}

fn every_kind() -> Vec<Kind> {
    vec![
        Kind::Base64Decode,
        Kind::Base64Encode,
        Kind::URLDecode,
        Kind::URLEncode,
        Kind::URLParse,
        Kind::HTMLUnescape,
        Kind::HTMLEscape,
        Kind::JWTDecode,
        Kind::FormatJSON,
        Kind::FormatYAML,
        Kind::YamlToJSON,
        Kind::TomlToJSON,
    ]
}

/// Runs a whole exchange on lines typed in advance, and gives every line
/// printed. Panics where a line is asked for and none is left.
fn run(select: &Select, typed: &[&str]) -> Vec<String> {
    let mut printed = Vec::new();
    let mut typed = typed.iter();
    let mut step = select.dispatch();
    loop {
        for line in &step.output {
            printed.push(line.text());
        }
        match step.next {
            None => break,
            Some(pending) => {
                let line = typed.next().expect("a line was asked for and none is left");
                step = select.resume(pending, line);
            }
        }
    }
    assert!(typed.next().is_none(), "lines were left unread");
    printed
}

const MENU: [&str; 15] = [
    "What do you want to do?",
    "1) Base64 Decode",
    "2) Base64 Encode",
    "3) URL Decode",
    "4) URL Encode",
    "5) URL Parse",
    "6) HTML Unescape",
    "7) HTML Escape",
    "8) JWT Decode",
    "9) Format JSON",
    "10) Format YAML",
    "11) YAML to JSON",
    "12) TOML to JSON",
    "13) Quit",
    "",
];

fn after_menu(rest: &[&str]) -> Vec<String> {
    MENU.iter().chain(rest.iter()).map(|s| s.to_string()).collect()
}

#[test]
fn catalogue_holds_every_tool_then_quit() {
    let args = request(None);
    let select = Select::new(&args);
    assert_eq!(select.message, "What do you want to do?");
    assert_eq!(select.options.len(), 13);
    let labels: Vec<&str> = select.options.iter().map(|o| o.message).collect();
    assert_eq!(
        labels,
        vec![
            "Base64 Decode",
            "Base64 Encode",
            "URL Decode",
            "URL Encode",
            "URL Parse",
            "HTML Unescape",
            "HTML Escape",
            "JWT Decode",
            "Format JSON",
            "Format YAML",
            "YAML to JSON",
            "TOML to JSON",
            "Quit",
        ]
    );
    for (option, kind) in select.options.iter().zip(every_kind()) {
        assert_eq!(option.handle, Handler::Tool(kind));
        let tag = option.arg_name.as_ref().unwrap();
        assert_eq!(tag.kind(), kind);
        assert!(tag.data().is_none());
        assert_eq!(option.message, kind.label());
    }
    assert!(select.options[12].arg_name.is_none());
    assert_eq!(select.options[12].handle, Handler::Quit);
}

#[test]
fn tags_compare_by_kind_alone() {
    let bare = Tools::JWTDecode { data: None, header: false, payload: false };
    let full = Tools::JWTDecode { data: Some("a.b.c".to_string()), header: true, payload: true };
    assert!(bare.same_kind(&full));
    assert!(full.same_kind(&bare));
    assert!(!bare.same_kind(&Tools::Base64Decode { data: None }));
    let decode = Tools::Base64Decode { data: Some("x".to_string()) };
    let encode = Tools::Base64Encode { data: Some("x".to_string()) };
    assert!(!decode.same_kind(&encode));
}

#[test]
fn tags_display_their_names() {
    let names: Vec<String> = every_tag(Some("x")).iter().map(|t| t.to_string()).collect();
    assert_eq!(
        names,
        vec![
            "base64-decode",
            "base64-encode",
            "url-decode",
            "url-encode",
            "url-parse",
            "html-unescape",
            "html-escape",
            "jwt-decode",
            "format-json",
            "format-yaml",
            "yaml-to-json",
            "toml-to-json",
        ]
    );
}

#[test]
fn arg_match_resolves_every_tag_of_the_catalogue() {
    let args = request(None);
    let select = Select::new(&args);
    for tag in every_tag(None) {
        let found = select.arg_match(&Some(&tag)).expect("every tag resolves");
        assert_eq!(found.handle, Handler::Tool(tag.kind()));
        assert!(found.arg_name.as_ref().unwrap().same_kind(&tag));
    }
}

#[test]
fn arg_match_does_not_look_at_the_payload() {
    let args = request(None);
    let select = Select::new(&args);
    for tag in every_tag(Some("some text")) {
        let found = select.arg_match(&Some(&tag)).expect("every tag resolves");
        assert_eq!(found.handle, Handler::Tool(tag.kind()));
        assert_eq!(found.message, tag.kind().label());
    }
    let flagged = Tools::JWTDecode { data: Some("a.b".to_string()), header: true, payload: true };
    assert_eq!(select.arg_match(&Some(&flagged)).unwrap().handle, Handler::Tool(Kind::JWTDecode));
}

#[test]
fn arg_match_without_a_request_finds_nothing() {
    let args = request(None);
    let select = Select::new(&args);
    assert!(select.arg_match(&None).is_none());
    let empty = Select { options: Vec::new(), message: "?", args: &args };
    assert!(empty.arg_match(&None).is_none());
}

#[test]
fn arg_match_finds_nothing_where_no_entry_answers() {
    let args = request(None);
    let select = Select {
        options: vec![
            SelectOption::tool(Kind::URLParse),
            SelectOption { message: "Quit", arg_name: None, handle: Handler::Quit },
        ],
        message: "?",
        args: &args,
    };
    assert!(select.arg_match(&Some(&Tools::Base64Decode { data: None })).is_none());
    assert!(select.arg_match(&Some(&Tools::URLParse { data: None })).is_some());
}

#[test]
fn arg_match_takes_the_first_of_two_entries() {
    let args = request(None);
    let select = Select {
        options: vec![
            SelectOption {
                message: "first",
                arg_name: Some(Tools::URLParse { data: Some("one".to_string()) }),
                handle: Handler::Quit,
            },
            SelectOption {
                message: "second",
                arg_name: Some(Tools::URLParse { data: None }),
                handle: Handler::Tool(Kind::URLParse),
            },
        ],
        message: "?",
        args: &args,
    };
    let found = select.arg_match(&Some(&Tools::URLParse { data: None })).unwrap();
    assert_eq!(found.message, "first");
}

#[test]
fn list_options_names_every_tool_but_quit() {
    let args = request(None);
    let select = Select::new(&args);
    let lines = select.list_options();
    assert_eq!(
        lines,
        vec![
            bare_text("base64-decode"),
            bare_text("base64-encode"),
            bare_text("url-decode"),
            bare_text("url-encode"),
            bare_text("url-parse"),
            bare_text("html-unescape"),
            bare_text("html-escape"),
            bare_text("jwt-decode"),
            bare_text("format-json"),
            bare_text("format-yaml"),
            bare_text("yaml-to-json"),
            bare_text("toml-to-json"),
        ]
    );
}

#[test]
fn list_options_skips_entries_without_a_tag() {
    let args = request(None);
    let select = Select {
        options: vec![
            SelectOption { message: "Quit", arg_name: None, handle: Handler::Quit },
            SelectOption::tool(Kind::TomlToJSON),
            SelectOption { message: "Leave", arg_name: None, handle: Handler::Quit },
            SelectOption::tool(Kind::Base64Decode),
        ],
        message: "?",
        args: &args,
    };
    assert_eq!(select.list_options(), vec![bare_text("toml-to-json"), bare_text("base64-decode")]);
    let empty = Select { options: Vec::new(), message: "?", args: &args };
    assert_eq!(empty.list_options(), Vec::<Line>::new());
}

#[test]
fn numbered_list_shows_the_menu() {
    let args = request(None);
    let select = Select::new(&args);
    let step = select.numbered_list();
    assert_eq!(step.next, Some(Pending::Selection));
    let texts: Vec<String> = step.output.iter().map(|l| l.text()).collect();
    assert_eq!(texts, after_menu(&[]));
    assert_eq!(step.output[0], bare_text("What do you want to do?"));
    assert_eq!(step.output[1], Line::Numbered { number: 1, message: "Base64 Decode".to_string() });
    assert_eq!(step.output[13], Line::Numbered { number: 13, message: "Quit".to_string() });
    assert_eq!(step.output[14], bare_text(""));
}

#[test]
fn numbered_list_of_an_empty_catalogue() {
    let args = request(None);
    let select = Select { options: Vec::new(), message: "Nothing here", args: &args };
    let step = select.numbered_list();
    assert_eq!(step.output, vec![bare_text("Nothing here"), bare_text("")]);
    assert_eq!(step.next, Some(Pending::Selection));
}

#[test]
fn pick_starts_the_entry_under_the_number() {
    let args = request(None);
    let select = Select::new(&args);
    let step = select.pick("1");
    assert_eq!(step.output, vec![bare_text("Enter a Base64 encoded string to decode:")]);
    assert_eq!(
        step.next,
        Some(Pending::Input { kind: Kind::Base64Decode, gathered: String::new() })
    );
    let step = select.pick("12");
    assert_eq!(
        step.output,
        vec![bare_text(
            "Enter some TOML to convert to JSON (type 'END' on a new line to stop input):"
        )]
    );
    assert_eq!(
        step.next,
        Some(Pending::Input { kind: Kind::TomlToJSON, gathered: String::new() })
    );
}

#[test]
fn pick_of_quit_does_nothing() {
    let args = request(None);
    let select = Select::new(&args);
    assert_eq!(select.pick("13"), Step { output: Vec::new(), next: None });
}

#[test]
fn pick_beyond_the_catalogue_reports_one_error() {
    let args = request(None);
    let select = Select::new(&args);
    for line in ["14", "15", "100", "4294967295"] {
        assert_eq!(select.pick(line), Step { output: out_of_range(), next: None });
    }
    let largest = usize::MAX.to_string();
    assert_eq!(select.pick(&largest), Step { output: out_of_range(), next: None });
}

#[test]
fn pick_of_zero_reports_one_error() {
    let args = request(None);
    let select = Select::new(&args);
    assert_eq!(select.pick("0"), Step { output: out_of_range(), next: None });
    let empty = Select { options: Vec::new(), message: "?", args: &args };
    assert_eq!(empty.pick("0"), Step { output: out_of_range(), next: None });
    assert_eq!(empty.pick("1"), Step { output: out_of_range(), next: None });
}

#[test]
fn pick_of_what_is_no_number_reports_one_error() {
    let args = request(None);
    let select = Select::new(&args);
    for line in ["", "one", "1.", " 1", "1 ", "-1", "0x1", "99999999999999999999999999"] {
        assert_eq!(select.pick(line), Step { output: out_of_range(), next: None }, "on {:?}", line);
    }
}

#[test]
fn begin_works_on_the_payload_of_its_own_request() {
    let args = request(Some(Tools::Base64Encode { data: Some("hello".to_string()) }));
    let step = Handler::Tool(Kind::Base64Encode).begin(&args);
    assert_eq!(step, Step { output: vec![result("aGVsbG8")], next: None });
}

#[test]
fn begin_asks_where_the_request_is_for_another_tool() {
    let args = request(Some(Tools::Base64Encode { data: Some("hello".to_string()) }));
    let step = Handler::Tool(Kind::Base64Decode).begin(&args);
    assert_eq!(step.output, vec![bare_text("Enter a Base64 encoded string to decode:")]);
    assert_eq!(
        step.next,
        Some(Pending::Input { kind: Kind::Base64Decode, gathered: String::new() })
    );
}

#[test]
fn begin_asks_where_the_request_brings_no_text() {
    let args = request(Some(Tools::URLParse { data: None }));
    let step = Handler::Tool(Kind::URLParse).begin(&args);
    assert_eq!(step.output, vec![bare_text("Enter a URL to parse:")]);
    assert_eq!(step.next, Some(Pending::Input { kind: Kind::URLParse, gathered: String::new() }));
}

#[test]
fn begin_of_quit_ends_the_run() {
    let args = request(None);
    assert_eq!(Handler::Quit.begin(&args), Step { output: Vec::new(), next: None });
}

#[test]
fn payload_is_the_data_of_a_request_for_the_same_tool() {
    let args = request(Some(Tools::URLEncode { data: Some("a b".to_string()) }));
    assert_eq!(args.payload(Kind::URLEncode), Some("a b"));
    assert_eq!(args.payload(Kind::URLDecode), None);
    let args = request(Some(Tools::URLEncode { data: None }));
    assert_eq!(args.payload(Kind::URLEncode), None);
    let args = request(None);
    assert_eq!(args.payload(Kind::URLEncode), None);
}

#[test]
fn feed_runs_a_single_line_tool_on_the_line() {
    let args = request(None);
    let step = Kind::URLEncode.feed(&args, String::new(), "a b");
    assert_eq!(step, Step { output: vec![result("a%20b")], next: None });
}

#[test]
fn feed_gathers_the_lines_of_a_multi_line_tool() {
    let args = request(None);
    let step = Kind::FormatJSON.feed(&args, String::new(), "{");
    assert_eq!(
        step,
        Step {
            output: Vec::new(),
            next: Some(Pending::Input { kind: Kind::FormatJSON, gathered: "{\n".to_string() }),
        }
    );
    let step = Kind::FormatJSON.feed(&args, "{\n".to_string(), "}");
    assert_eq!(
        step,
        Step {
            output: Vec::new(),
            next: Some(Pending::Input { kind: Kind::FormatJSON, gathered: "{\n}\n".to_string() }),
        }
    );
    let step = Kind::FormatJSON.feed(&args, "{\n}\n".to_string(), "END");
    assert_eq!(step, Step { output: vec![result("{}")], next: None });
}

#[test]
fn feed_takes_end_as_text_for_a_single_line_tool() {
    let args = request(None);
    let step = Kind::Base64Encode.feed(&args, String::new(), "END");
    assert_eq!(step, Step { output: vec![result("RU5E")], next: None });
}

#[test]
fn dispatch_lists_the_tools_when_asked_to() {
    let args = Args { tool: None, list: true, plain: false };
    let select = Select::new(&args);
    assert_eq!(
        run(&select, &[]),
        vec![
            "base64-decode",
            "base64-encode",
            "url-decode",
            "url-encode",
            "url-parse",
            "html-unescape",
            "html-escape",
            "jwt-decode",
            "format-json",
            "format-yaml",
            "yaml-to-json",
            "toml-to-json",
        ]
    );
}

#[test]
fn dispatch_lists_even_where_a_tool_is_named() {
    let args = Args {
        tool: Some(Tools::Base64Encode { data: Some("hello".to_string()) }),
        list: true,
        plain: true,
    };
    let select = Select::new(&args);
    let printed = run(&select, &[]);
    assert_eq!(printed.len(), 12);
    assert_eq!(printed[0], "base64-decode");
    assert_eq!(printed[11], "toml-to-json");
}

#[test]
fn dispatch_runs_the_named_tool_on_its_payload() {
    let args = request(Some(Tools::Base64Encode { data: Some("hello".to_string()) }));
    let select = Select::new(&args);
    assert_eq!(run(&select, &[]), vec!["Result: aGVsbG8"]);
    let args = Args {
        tool: Some(Tools::Base64Decode { data: Some("aGVsbG8".to_string()) }),
        list: false,
        plain: true,
    };
    let select = Select::new(&args);
    assert_eq!(run(&select, &[]), vec!["hello"]);
}

#[test]
fn dispatch_runs_every_tool_by_its_tag() {
    for tag in every_tag(Some("x")) {
        let kind = tag.kind();
        let args = request(Some(tag));
        let select = Select::new(&args);
        let step = select.dispatch();
        assert!(step.next.is_none());
        assert_eq!(step.output, kind.apply(&args, "x"));
    }
}

#[test]
fn dispatch_asks_for_the_text_that_the_request_lacks() {
    let args = request(Some(Tools::URLDecode { data: None }));
    let select = Select::new(&args);
    assert_eq!(
        run(&select, &["a%20b"]),
        vec!["Enter a URL encoded string to decode:", "Result: a b"]
    );
}

#[test]
fn dispatch_reads_many_lines_for_structured_data() {
    let args = request(Some(Tools::FormatJSON { data: None }));
    let select = Select::new(&args);
    assert_eq!(
        run(&select, &["{", "\"a\":", "[1]", "}", "END"]),
        vec![
            "Enter some JSON to format (type 'END' on a new line to stop input):",
            "Result: {\n  \"a\": [\n    1\n  ]\n}",
        ]
    );
}

#[test]
fn dispatch_takes_the_jwt_flags_from_the_request() {
    let token = "eyJhbGciOiJIUzI1NiIsInR5cCI6IkpXVCJ9.eyJzdWIiOiIxIn0.sig";
    let args = request(Some(Tools::JWTDecode {
        data: Some(token.to_string()),
        header: false,
        payload: true,
    }));
    let select = Select::new(&args);
    assert_eq!(run(&select, &[]), vec!["Payload Data: {\"sub\":\"1\"}"]);
    let args = request(Some(Tools::JWTDecode { data: None, header: true, payload: false }));
    let select = Select::new(&args);
    assert_eq!(
        run(&select, &[token]),
        vec!["Enter a JWT token to decode:", "Header Data: {\"alg\":\"HS256\",\"typ\":\"JWT\"}"]
    );
}

#[test]
fn dispatch_without_a_request_shows_the_menu() {
    let args = request(None);
    let select = Select::new(&args);
    let step = select.dispatch();
    assert_eq!(step, select.numbered_list());
}

#[test]
fn menu_selection_runs_the_tool() {
    let args = request(None);
    let select = Select::new(&args);
    assert_eq!(
        run(&select, &["2", "hello"]),
        after_menu(&["Enter a string to Base64 encode:", "Result: aGVsbG8"])
    );
}

#[test]
fn menu_selection_of_a_multi_line_tool_reads_to_the_end_line() {
    let args = request(None);
    let select = Select::new(&args);
    assert_eq!(
        run(&select, &["11", "a: 1", "b: 2", "END"]),
        after_menu(&[
            "Enter some YAML to convert to JSON (type 'END' on a new line to stop input):",
            "Result: {\n  \"a\": 1,\n  \"b\": 2\n}",
        ])
    );
}

#[test]
fn menu_selection_of_quit_ends_the_run() {
    let args = request(None);
    let select = Select::new(&args);
    assert_eq!(run(&select, &["13"]), after_menu(&[]));
}

#[test]
fn menu_selection_beyond_the_catalogue_reports_one_error_and_runs_nothing() {
    let args = request(None);
    let select = Select::new(&args);
    assert_eq!(
        run(&select, &["14"]),
        after_menu(&["Error: Please only select a number from the given options"])
    );
}

#[test]
fn menu_selection_that_is_no_number_reports_one_error_and_runs_nothing() {
    let args = request(None);
    let select = Select::new(&args);
    assert_eq!(
        run(&select, &["first"]),
        after_menu(&["Error: Please only select a number from the given options"])
    );
    assert_eq!(
        run(&select, &["0"]),
        after_menu(&["Error: Please only select a number from the given options"])
    );
}

#[test]
fn menu_is_shown_where_the_request_resolves_to_no_entry() {
    let args = request(Some(Tools::Base64Encode { data: Some("hello".to_string()) }));
    let select = Select {
        options: vec![
            SelectOption::tool(Kind::Base64Decode),
            SelectOption::tool(Kind::URLParse),
        ],
        message: "Pick one",
        args: &args,
    };
    assert_eq!(
        run(&select, &["1", "aGk"]),
        vec![
            "Pick one",
            "1) Base64 Decode",
            "2) URL Parse",
            "",
            "Enter a Base64 encoded string to decode:",
            "Result: hi",
        ]
    );
}

#[test]
fn resume_takes_the_line_for_what_was_pending() {
    let args = request(None);
    let select = Select::new(&args);
    let step = select.resume(Pending::Selection, "5");
    assert_eq!(step.output, vec![bare_text("Enter a URL to parse:")]);
    let step = select.resume(step.next.unwrap(), "nonsense");
    assert_eq!(step, Step { output: vec![failure("Error", "relative URL without a base")], next: None });
}

#[test]
fn menu_has_no_empty_line_before_the_first_entry() {
    let args = request(None);
    let select = Select {
        options: vec![
            SelectOption::tool(Kind::Base64Decode),
            SelectOption { message: "Quit", arg_name: None, handle: Handler::Quit },
        ],
        message: "Which one?",
        args: &args,
    };
    let step = select.numbered_list();
    let texts: Vec<String> = step.output.iter().map(|l| l.text()).collect();
    assert_eq!(texts, vec!["Which one?", "1) Base64 Decode", "2) Quit", ""]);
}

#[test]
fn finish_runs_a_multi_line_tool_on_what_was_gathered() {
    let args = Args { tool: None, list: false, plain: true };
    let select = Select::new(&args);
    let pending = Pending::Input { kind: Kind::YamlToJSON, gathered: "a: 1\nb: 2\n".to_string() };
    assert_eq!(
        select.finish(pending),
        Step { output: vec![bare_text("{\n  \"a\": 1,\n  \"b\": 2\n}")], next: None }
    );
}

#[test]
fn finish_runs_a_single_line_tool_on_nothing() {
    let args = request(None);
    let select = Select::new(&args);
    let pending = Pending::Input { kind: Kind::Base64Encode, gathered: String::new() };
    assert_eq!(select.finish(pending), Step { output: vec![result("")], next: None });
}

#[test]
fn finish_at_the_menu_reports_one_error() {
    let args = request(None);
    let select = Select::new(&args);
    assert_eq!(select.finish(Pending::Selection), Step { output: out_of_range(), next: None });
}

#[test]
fn close_ends_the_capture_with_what_was_gathered() {
    let args = request(None);
    let step = Kind::FormatJSON.close(&args, "[1,\n2]\n".to_string());
    assert_eq!(step, Step { output: vec![result("[\n  1,\n  2\n]")], next: None });
}

#[test]
fn input_that_ends_before_the_end_line_still_reaches_the_tool() {
    let args = Args { tool: Some(Tools::FormatJSON { data: None }), list: false, plain: true };
    let select = Select::new(&args);
    let mut printed = Vec::new();
    let mut step = select.dispatch();
    for line in ["{", "\"a\": 1", "}"] {
        printed.extend(step.output.iter().map(|l| l.text()));
        step = select.resume(step.next.expect("a line is wanted"), line);
    }
    printed.extend(step.output.iter().map(|l| l.text()));
    let last = select.finish(step.next.expect("the end line has not come"));
    printed.extend(last.output.iter().map(|l| l.text()));
    assert!(last.next.is_none());
    assert_eq!(
        printed,
        vec![
            "Enter some JSON to format (type 'END' on a new line to stop input):",
            "{\n  \"a\": 1\n}",
        ]
    );
}
