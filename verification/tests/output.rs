use devtools::output::{error, print, read_input, same_text, success, Capture, Colour, Line};

#[test]
fn print_gives_bare_text() {
    assert_eq!(print("hello"), Line::Plain { text: "hello".to_string() });
    assert_eq!(print("").text(), "");
}

#[test]
fn success_carries_a_green_label() {
    let line = success("abc", None, false);
    assert_eq!(
        line,
        Line::Labelled {
            colour: Colour::Green,
            label: "Result".to_string(),
            data: "abc".to_string(),
        }
    );
    assert_eq!(line.text(), "Result: abc");
}

#[test]
fn success_takes_the_label_it_is_given() {
    let line = success("https", Some("Scheme"), false);
    assert_eq!(
        line,
        Line::Labelled {
            colour: Colour::Green,
            label: "Scheme".to_string(),
            data: "https".to_string(),
        }
    );
    assert_eq!(line.text(), "Scheme: https");
}

#[test]
fn success_in_plain_mode_omits_the_label() {
    let line = success("abc", None, true);
    assert_eq!(line, Line::Plain { text: "abc".to_string() });
    assert_eq!(line.text(), "abc");
    let line = success("abc", Some("Scheme"), true);
    assert_eq!(line, Line::Plain { text: "abc".to_string() });
    assert_eq!(line.text(), "abc");
}

#[test]
fn error_is_always_labelled() {
    let line = error("went wrong", None);
    assert_eq!(
        line,
        Line::Labelled {
            colour: Colour::Red,
            label: "Error".to_string(),
            data: "went wrong".to_string(),
        }
    );
    assert_eq!(line.text(), "Error: went wrong");
}

#[test]
fn error_takes_the_label_it_is_given() {
    let line = error("bad byte", Some("Error decoding header"));
    assert_eq!(
        line,
        Line::Labelled {
            colour: Colour::Red,
            label: "Error decoding header".to_string(),
            data: "bad byte".to_string(),
        }
    );
    assert_eq!(line.text(), "Error decoding header: bad byte");
}

#[test]
fn numbered_line_reads_number_bracket_message() {
    let line = Line::Numbered { number: 12, message: "TOML to JSON".to_string() };
    assert_eq!(line.text(), "12) TOML to JSON");
    let line = Line::Numbered { number: 1, message: "Base64 Decode".to_string() };
    assert_eq!(line.text(), "1) Base64 Decode");
}

#[test]
fn same_text_compares_whole_texts() {
    assert!(same_text("END", "END"));
    assert!(same_text("", ""));
    assert!(!same_text("END", "end"));
    assert!(!same_text("END", "END "));
    assert!(!same_text("", "END"));
}

#[test]
fn read_input_single_line_is_the_line() {
    assert_eq!(
        read_input(String::new(), Some("hello world"), None, None),
        Capture::Complete { input: "hello world".to_string() }
    );
    assert_eq!(
        read_input(String::new(), Some("  padded  "), Some(false), Some("END")),
        Capture::Complete { input: "  padded  ".to_string() }
    );
}

#[test]
fn read_input_single_line_takes_the_end_line_as_text() {
    assert_eq!(
        read_input(String::new(), Some("END"), Some(false), Some("END")),
        Capture::Complete { input: "END".to_string() }
    );
}

#[test]
fn read_input_multi_line_gathers_with_newlines() {
    let first = read_input(String::new(), Some("{"), Some(true), Some("END"));
    assert_eq!(first, Capture::Partial { gathered: "{\n".to_string() });
    let second = read_input("{\n".to_string(), Some("  \"a\": 1"), Some(true), Some("END"));
    assert_eq!(second, Capture::Partial { gathered: "{\n  \"a\": 1\n".to_string() });
}

#[test]
fn read_input_multi_line_ends_at_the_end_line() {
    assert_eq!(
        read_input("{\n}\n".to_string(), Some("END"), Some(true), Some("END")),
        Capture::Complete { input: "{\n}\n".to_string() }
    );
    assert_eq!(
        read_input(String::new(), Some("END"), Some(true), Some("END")),
        Capture::Complete { input: String::new() }
    );
}

#[test]
fn read_input_end_line_must_match_exactly() {
    assert_eq!(
        read_input("a\n".to_string(), Some("END "), Some(true), Some("END")),
        Capture::Partial { gathered: "a\nEND \n".to_string() }
    );
    assert_eq!(
        read_input("a\n".to_string(), Some("end"), Some(true), Some("END")),
        Capture::Partial { gathered: "a\nend\n".to_string() }
    );
}

#[test]
fn read_input_end_line_defaults_to_the_empty_line() {
    assert_eq!(
        read_input("a\n".to_string(), Some(""), Some(true), None),
        Capture::Complete { input: "a\n".to_string() }
    );
    assert_eq!(
        read_input("a\n".to_string(), Some("END"), Some(true), None),
        Capture::Partial { gathered: "a\nEND\n".to_string() }
    );
}

#[test]
fn read_input_multi_line_ends_where_the_input_ends() {
    assert_eq!(
        read_input("{\n}\n".to_string(), None, Some(true), Some("END")),
        Capture::Complete { input: "{\n}\n".to_string() }
    );
    assert_eq!(
        read_input(String::new(), None, Some(true), Some("END")),
        Capture::Complete { input: String::new() }
    );
}

#[test]
fn read_input_single_line_is_empty_where_the_input_ends() {
    assert_eq!(
        read_input(String::new(), None, None, None),
        Capture::Complete { input: String::new() }
    );
}

#[test]
fn read_input_gathers_every_line_up_to_the_end_of_the_input() {
    let mut gathered = String::new();
    for line in ["a: 1", "b:", "  - x"] {
        gathered = match read_input(gathered, Some(line), Some(true), Some("END")) {
            Capture::Partial { gathered } => gathered,
            Capture::Complete { .. } => panic!("the end line did not come"),
        };
    }
    assert_eq!(
        read_input(gathered, None, Some(true), Some("END")),
        Capture::Complete { input: "a: 1\nb:\n  - x\n".to_string() }
    );
}
