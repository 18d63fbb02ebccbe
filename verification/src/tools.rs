//! The tools of the catalogue: each takes the request and the text to work
//! on, and gives the lines that report what came of it.

use crate::args::{Args, Kind};
use crate::codec::{
    base64_decode, base64_decoded, base64_encode, base64_encoded, escapable, escape_html,
    html_unescaped, json_text, json_value, optional_text, outcome, parse_json, parse_toml,
    parse_url, parse_yaml, percent_decode, percent_decoded, percent_encode, print_json,
    print_toml_as_json, print_yaml, print_yaml_as_json, toml_json_text, toml_value,
    unescape_html, url_parts, utf8_fault, utf8_string, yaml_json_text, yaml_text, yaml_value,
    UrlParts, UrlPartsView,
};
use crate::escape::{
    html_escaped, is_well_escaped, percent_encoded, percent_encoding_is_well_escaped,
    well_escaped,
};
use crate::output::{error, error_line, success, success_line, text_of, views, Line, LineView};
use crate::text::{decimal, decimal_text, dot_index, find_dot};
use vstd::prelude::*;
use vstd::utf8::{
    decode_utf8, encode_utf8, encode_utf8_decode_utf8, encode_utf8_valid_utf8, valid_utf8,
};

verus! {

/// The text of an optional component; an absent one reads as empty.
pub open spec fn or_empty(s: Option<Seq<char>>) -> Seq<char> {
    match s {
        Some(t) => t,
        None => ""@,
    }
}

/// The text of an optional port number; an absent one reads as empty.
pub open spec fn port_text(port: Option<u16>) -> Seq<char> {
    match port {
        Some(n) => decimal_text(n as nat),
        None => ""@,
    }
}

/// The report on a parsed URL: one line for each component, in a fixed
/// order, each under its label unless plain output is asked for. The report
/// on a text that is no URL: one error line.
pub open spec fn url_lines(parsed: Result<UrlPartsView, Seq<char>>, plain: bool) -> Seq<
    LineView,
> {
    match parsed {
        Ok(parts) => seq![
            success_line(parts.scheme, Some("Scheme"@), plain),
            success_line(parts.username, Some("Username"@), plain),
            success_line(or_empty(parts.password), Some("Password"@), plain),
            success_line(or_empty(parts.host), Some("Host"@), plain),
            success_line(port_text(parts.port), Some("Port"@), plain),
            success_line(parts.path, Some("Path"@), plain),
            success_line(or_empty(parts.query), Some("Query"@), plain),
            success_line(or_empty(parts.fragment), Some("Fragment"@), plain),
        ],
        Err(e) => seq![error_line(e, None)],
    }
}

/// The view of the outcome of parsing a URL.
pub open spec fn parsed_view(parsed: Result<UrlParts, String>) -> Result<UrlPartsView, Seq<char>> {
    match parsed {
        Ok(parts) => Ok(parts@),
        Err(e) => Err(e@),
    }
}

fn text_or_empty(s: &Option<String>) -> (text: &str)
    ensures
        text@ == or_empty(optional_text(*s)),
{
    match s {
        Some(t) => t.as_str(),
        None => "",
    }
}

/// Reports the outcome of parsing a URL.
pub fn url_report(parsed: &Result<UrlParts, String>, plain: bool) -> (lines: Vec<Line>)
    ensures
        views(lines@) == url_lines(parsed_view(*parsed), plain),
{
    let mut lines: Vec<Line> = Vec::new();
    match parsed {
        Ok(parts) => {
            let port = match parts.port {
                Some(n) => decimal(n as usize),
                None => "".to_owned(),
            };
            lines.push(success(parts.scheme.as_str(), Some("Scheme"), plain));
            lines.push(success(parts.username.as_str(), Some("Username"), plain));
            lines.push(success(text_or_empty(&parts.password), Some("Password"), plain));
            lines.push(success(text_or_empty(&parts.host), Some("Host"), plain));
            lines.push(success(port.as_str(), Some("Port"), plain));
            lines.push(success(parts.path.as_str(), Some("Path"), plain));
            lines.push(success(text_or_empty(&parts.query), Some("Query"), plain));
            lines.push(success(text_or_empty(&parts.fragment), Some("Fragment"), plain));
        },
        Err(e) => {
            lines.push(error(e.as_str(), None));
        },
    }
    assert(views(lines@) =~= url_lines(parsed_view(*parsed), plain));
    lines
}

/// Takes a URL apart and reports its components.
pub fn url_parse(a: &Args, input: &str) -> (lines: Vec<Line>)
    ensures
        views(lines@) == url_lines(url_parts(input@), a.plain),
{
    let parsed = parse_url(input);
    url_report(&parsed, a.plain)
}

/// The report on a transform that gives one text or fails: the text as a
/// result, or the failure as an error.
pub open spec fn report_lines(
    result: Result<Seq<char>, Seq<char>>,
    label: Option<Seq<char>>,
    failure: Option<Seq<char>>,
    plain: bool,
) -> Seq<LineView> {
    match result {
        Ok(text) => seq![success_line(text, label, plain)],
        Err(e) => seq![error_line(e, failure)],
    }
}

/// Reports the outcome of a transform that gives one text or fails.
pub fn report(
    result: &Result<String, String>,
    label: Option<&str>,
    failure: Option<&str>,
    plain: bool,
) -> (lines: Vec<Line>)
    ensures
        views(lines@) == report_lines(outcome(*result), text_of(label), text_of(failure), plain),
{
    let mut lines: Vec<Line> = Vec::new();
    match result {
        Ok(text) => lines.push(success(text.as_str(), label, plain)),
        Err(e) => lines.push(error(e.as_str(), failure)),
    }
    assert(views(lines@) =~= report_lines(
        outcome(*result),
        text_of(label),
        text_of(failure),
        plain,
    ));
    lines
}

/// The text that decoded bytes spell, where there are bytes and they are
/// UTF-8; else what went wrong, said in words.
pub open spec fn bytes_text(decoded: Result<Seq<u8>, Seq<char>>) -> Result<Seq<char>, Seq<char>> {
    match decoded {
        Ok(bytes) => if valid_utf8(bytes) {
            Ok(decode_utf8(bytes))
        } else {
            Err("Error converting bytes to string: "@ + utf8_fault(bytes))
        },
        Err(e) => Err("Error decoding Base64 string: "@ + e),
    }
}

/// The text that a Base64 text stands for, or what went wrong.
pub open spec fn base_64_text(text: Seq<char>) -> Result<Seq<char>, Seq<char>> {
    bytes_text(base64_decoded(text))
}

/// The view of decoded bytes, or of the message in their place.
pub open spec fn decoded_view(decoded: Result<Vec<u8>, String>) -> Result<Seq<u8>, Seq<char>> {
    match decoded {
        Ok(bytes) => Ok(bytes@),
        Err(e) => Err(e@),
    }
}

/// Turns decoded bytes into text.
pub fn text_of_bytes(decoded: Result<Vec<u8>, String>) -> (r: Result<String, String>)
    ensures
        outcome(r) == bytes_text(decoded_view(decoded)),
{
    match decoded {
        Ok(bytes) => match utf8_string(bytes) {
            Ok(text) => Ok(text),
            Err(e) => Err("Error converting bytes to string: ".to_owned().concat(e.as_str())),
        },
        Err(e) => Err("Error decoding Base64 string: ".to_owned().concat(e.as_str())),
    }
}

/// Decodes a Base64 text into the text it stands for.
pub fn decode_base_64(input: &str) -> (r: Result<String, String>)
    ensures
        outcome(r) == base_64_text(input@),
{
    text_of_bytes(base64_decode(input))
}

/// Decodes a Base64 text and reports what it stands for.
pub fn base_64_decode(a: &Args, input: &str) -> (lines: Vec<Line>)
    ensures
        views(lines@) == report_lines(base_64_text(input@), None, None, a.plain),
{
    let result = decode_base_64(input);
    report(&result, None, None, a.plain)
}

/// The first two parts of a token whose parts are set apart by dots, or
/// `None` where the text holds no dot and so has one part only.
pub open spec fn token_parts(input: Seq<char>) -> Option<(Seq<char>, Seq<char>)> {
    let i = dot_index(input) as int;
    if i >= input.len() {
        None
    } else {
        let rest = input.skip(i + 1);
        Some((input.take(i), rest.take(dot_index(rest) as int)))
    }
}

/// Splits a token into its first two parts.
pub fn split_token(input: &str) -> (parts: Option<(&str, &str)>)
    ensures
        match parts {
            Some((first, second)) => token_parts(input@) == Some((first@, second@)),
            None => token_parts(input@) is None,
        },
{
    let n = input.unicode_len();
    assert(input@.skip(0) =~= input@);
    let i = find_dot(input, 0);
    if i >= n {
        None
    } else {
        let j = find_dot(input, i + 1);
        let first = input.substring_char(0, i);
        let second = input.substring_char(i + 1, j);
        proof {
            let rest = input@.skip(i + 1);
            assert(input@.subrange(0, i as int) =~= input@.take(i as int));
            assert(input@.subrange(i + 1, j as int) =~= rest.take(dot_index(rest) as int));
        }
        Some((first, second))
    }
}

/// The report on the parts of a token that were asked for, the header
/// first.
pub open spec fn token_lines(
    header: Option<Result<Seq<char>, Seq<char>>>,
    payload: Option<Result<Seq<char>, Seq<char>>>,
    plain: bool,
) -> Seq<LineView> {
    (match header {
        Some(h) => report_lines(h, Some("Header Data"@), Some("Error decoding header"@), plain),
        None => Seq::empty(),
    }) + (match payload {
        Some(p) => report_lines(p, Some("Payload Data"@), Some("Error decoding payload"@), plain),
        None => Seq::empty(),
    })
}

/// The view of a part's outcome, where the part was asked for.
pub open spec fn part_view(part: Option<Result<String, String>>) -> Option<
    Result<Seq<char>, Seq<char>>,
> {
    match part {
        Some(r) => Some(outcome(r)),
        None => None,
    }
}

/// Reports the decoded parts of a token.
pub fn token_report(
    header: &Option<Result<String, String>>,
    payload: &Option<Result<String, String>>,
    plain: bool,
) -> (lines: Vec<Line>)
    ensures
        views(lines@) == token_lines(part_view(*header), part_view(*payload), plain),
{
    let mut lines: Vec<Line> = Vec::new();
    match header {
        Some(h) => {
            let mut part = report(h, Some("Header Data"), Some("Error decoding header"), plain);
            lines.append(&mut part);
        },
        None => {},
    }
    match payload {
        Some(p) => {
            let mut part = report(p, Some("Payload Data"), Some("Error decoding payload"), plain);
            lines.append(&mut part);
        },
        None => {},
    }
    assert(views(lines@) =~= token_lines(part_view(*header), part_view(*payload), plain));
    lines
}

/// The report on a token. A text without a dot is no token: one error line
/// and nothing else. Else the header, the payload or both are decoded and
/// reported; both, too, where neither was asked for.
pub open spec fn jwt_lines(input: Seq<char>, header: bool, payload: bool, plain: bool) -> Seq<
    LineView,
> {
    match token_parts(input) {
        None => seq![error_line("Invalid JWT token"@, None)],
        Some((first, second)) => {
            let all = !header && !payload;
            token_lines(
                if header || all {
                    Some(base_64_text(first))
                } else {
                    None
                },
                if payload || all {
                    Some(base_64_text(second))
                } else {
                    None
                },
                plain,
            )
        },
    }
}

/// Decodes the header and the payload of a token, without a look at its
/// signature.
pub fn jwt_decode(a: &Args, input: &str) -> (lines: Vec<Line>)
    ensures
        views(lines@) == jwt_lines(input@, a.header(), a.body(), a.plain),
{
    let mut header = a.header();
    let mut payload = a.body();
    match split_token(input) {
        None => {
            let mut lines: Vec<Line> = Vec::new();
            lines.push(error("Invalid JWT token", None));
            assert(views(lines@) =~= jwt_lines(input@, a.header(), a.body(), a.plain));
            lines
        },
        Some((first, second)) => {
            if !header && !payload {
                header = true;
                payload = true;
            }
            let head = if header {
                Some(decode_base_64(first))
            } else {
                None
            };
            let tail = if payload {
                Some(decode_base_64(second))
            } else {
                None
            };
            token_report(&head, &tail, a.plain)
        },
    }
}

/// Encodes a text in Base64. Decoding what comes out gives the text back.
pub fn encode_base_64(input: &str) -> (text: String)
    ensures
        text@ == base64_encoded(encode_utf8(input@)),
        base_64_text(text@) == Ok::<Seq<char>, Seq<char>>(input@),
{
    proof {
        encode_utf8_valid_utf8(input@);
        encode_utf8_decode_utf8(input@);
    }
    base64_encode(input)
}

/// Encodes a text in Base64 and reports the encoding.
pub fn base_64_encode(a: &Args, input: &str) -> (lines: Vec<Line>)
    ensures
        views(lines@) == seq![success_line(base64_encoded(encode_utf8(input@)), None, a.plain)],
        base_64_text(base64_encoded(encode_utf8(input@))) == Ok::<Seq<char>, Seq<char>>(input@),
{
    let result = encode_base_64(input);
    let mut lines: Vec<Line> = Vec::new();
    lines.push(success(result.as_str(), None, a.plain));
    assert(views(lines@) =~= seq![
        success_line(base64_encoded(encode_utf8(input@)), None, a.plain),
    ]);
    lines
}

/// The text that a percent-encoded text stands for. A text in which a
/// percent sign is not followed by two hexadecimal digits stands for none.
pub open spec fn url_decoded(text: Seq<char>) -> Result<Seq<char>, Seq<char>> {
    if well_escaped(text) {
        percent_decoded(text)
    } else {
        Err("invalid percent-encoding"@)
    }
}

/// Decodes a percent-encoded text.
pub fn decode_url(input: &str) -> (r: Result<String, String>)
    ensures
        outcome(r) == url_decoded(input@),
        !well_escaped(input@) ==> r is Err,
{
    if is_well_escaped(input) {
        percent_decode(input)
    } else {
        Err("invalid percent-encoding".to_owned())
    }
}

/// Decodes a percent-encoded text and reports what it stands for. A text
/// with a malformed escape is reported as one error line.
pub fn url_decode(a: &Args, input: &str) -> (lines: Vec<Line>)
    ensures
        views(lines@) == report_lines(
            url_decoded(input@),
            None,
            Some("Error decoding URL encoded string"@),
            a.plain,
        ),
        !well_escaped(input@) ==> views(lines@) == seq![
            error_line("invalid percent-encoding"@, Some("Error decoding URL encoded string"@)),
        ],
{
    let result = decode_url(input);
    report(&result, None, Some("Error decoding URL encoded string"), a.plain)
}

/// Percent-encodes a text. Decoding what comes out gives the text back.
pub fn encode_url(input: &str) -> (text: String)
    ensures
        text@ == percent_encoded(input@),
        url_decoded(text@) == Ok::<Seq<char>, Seq<char>>(input@),
{
    proof {
        percent_encoding_is_well_escaped(vstd::utf8::encode_utf8(input@));
    }
    percent_encode(input)
}

/// Percent-encodes a text and reports the encoding. Decoding what comes out
/// gives the text back.
pub fn url_encode(a: &Args, input: &str) -> (lines: Vec<Line>)
    ensures
        views(lines@) == seq![success_line(percent_encoded(input@), None, a.plain)],
        url_decoded(percent_encoded(input@)) == Ok::<Seq<char>, Seq<char>>(input@),
{
    let result = encode_url(input);
    let mut lines: Vec<Line> = Vec::new();
    lines.push(success(result.as_str(), None, a.plain));
    assert(views(lines@) =~= seq![success_line(percent_encoded(input@), None, a.plain)]);
    lines
}

/// Resolves the entities of an HTML text and reports the text they stand
/// for.
pub fn html_unescape(a: &Args, input: &str) -> (lines: Vec<Line>)
    ensures
        views(lines@) == report_lines(
            html_unescaped(input@),
            None,
            Some("Error decoding HTML escaped string"@),
            a.plain,
        ),
{
    let result = unescape_html(input);
    report(&result, None, Some("Error decoding HTML escaped string"), a.plain)
}

/// Escapes a text for use in an HTML attribute and reports the escaped
/// text.
pub fn html_escape(a: &Args, input: &str) -> (lines: Vec<Line>)
    requires
        escapable(input@),
    ensures
        views(lines@) == seq![success_line(html_escaped(input@), None, a.plain)],
{
    let result = escape_html(input);
    let mut lines: Vec<Line> = Vec::new();
    lines.push(success(result.as_str(), None, a.plain));
    assert(views(lines@) =~= seq![success_line(html_escaped(input@), None, a.plain)]);
    lines
}

/// The outcome of reading a JSON text and printing it anew.
pub open spec fn json_formatted(input: Seq<char>) -> Result<Seq<char>, Seq<char>> {
    match json_value(input) {
        Ok(value) => json_text(value),
        Err(e) => Err(e),
    }
}

/// The outcome of reading a YAML text and printing it anew.
pub open spec fn yaml_formatted(input: Seq<char>) -> Result<Seq<char>, Seq<char>> {
    match yaml_value(input) {
        Ok(value) => yaml_text(value),
        Err(e) => Err(e),
    }
}

/// The outcome of reading a YAML text and printing it as JSON.
pub open spec fn yaml_as_json(input: Seq<char>) -> Result<Seq<char>, Seq<char>> {
    match yaml_value(input) {
        Ok(value) => yaml_json_text(value),
        Err(e) => Err(e),
    }
}

/// The outcome of reading a TOML text and printing it as JSON.
pub open spec fn toml_as_json(input: Seq<char>) -> Result<Seq<char>, Seq<char>> {
    match toml_value(input) {
        Ok(value) => toml_json_text(value),
        Err(e) => Err(e),
    }
}

/// The report on a formatted text: the text as a result, or one error
/// line.
pub open spec fn formatted_lines(result: Result<Seq<char>, Seq<char>>, plain: bool) -> Seq<
    LineView,
> {
    report_lines(result, None, None, plain)
}

/// Reports a formatted text, or why there is none.
pub fn formatted_report(result: &Result<String, String>, plain: bool) -> (lines: Vec<Line>)
    ensures
        views(lines@) == formatted_lines(outcome(*result), plain),
{
    report(result, None, None, plain)
}

/// Reads a JSON text and prints it with indentation.
pub fn format_json(a: &Args, input: &str) -> (lines: Vec<Line>)
    ensures
        views(lines@) == formatted_lines(json_formatted(input@), a.plain),
{
    let result = match parse_json(input) {
        Ok(value) => print_json(&value),
        Err(e) => Err(e),
    };
    formatted_report(&result, a.plain)
}

/// Reads a YAML text and prints it anew.
pub fn format_yaml(a: &Args, input: &str) -> (lines: Vec<Line>)
    ensures
        views(lines@) == formatted_lines(yaml_formatted(input@), a.plain),
{
    let result = match parse_yaml(input) {
        Ok(value) => print_yaml(&value),
        Err(e) => Err(e),
    };
    formatted_report(&result, a.plain)
}

/// Reads a YAML text and prints it as JSON with indentation.
pub fn yaml_to_json(a: &Args, input: &str) -> (lines: Vec<Line>)
    ensures
        views(lines@) == formatted_lines(yaml_as_json(input@), a.plain),
{
    let result = match parse_yaml(input) {
        Ok(value) => print_yaml_as_json(&value),
        Err(e) => Err(e),
    };
    formatted_report(&result, a.plain)
}

/// Reads a TOML text and prints it as JSON with indentation.
pub fn toml_to_json(a: &Args, input: &str) -> (lines: Vec<Line>)
    ensures
        views(lines@) == formatted_lines(toml_as_json(input@), a.plain),
{
    let result = match parse_toml(input) {
        Ok(value) => print_toml_as_json(&value),
        Err(e) => Err(e),
    };
    formatted_report(&result, a.plain)
}

impl Kind {
    /// What a tool asks for when no text came with the request.
    pub open spec fn spec_prompt(self) -> Seq<char> {
        match self {
            Kind::Base64Decode => "Enter a Base64 encoded string to decode:"@,
            Kind::Base64Encode => "Enter a string to Base64 encode:"@,
            Kind::URLDecode => "Enter a URL encoded string to decode:"@,
            Kind::URLEncode => "Enter a string to URL encode:"@,
            Kind::URLParse => "Enter a URL to parse:"@,
            Kind::HTMLUnescape => "Enter a HTML escaped string to unescape:"@,
            Kind::HTMLEscape => "Enter a string to HTML escape:"@,
            Kind::JWTDecode => "Enter a JWT token to decode:"@,
            Kind::FormatJSON => "Enter some JSON to format (type 'END' on a new line to stop input):"@,
            Kind::FormatYAML => "Enter some YAML to format (type 'END' on a new line to stop input):"@,
            Kind::YamlToJSON => "Enter some YAML to convert to JSON (type 'END' on a new line to stop input):"@,
            Kind::TomlToJSON => "Enter some TOML to convert to JSON (type 'END' on a new line to stop input):"@,
        }
    }

    /// What a tool asks for when no text came with the request.
    pub fn prompt(self) -> (msg: &'static str)
        ensures
            msg@ == self.spec_prompt(),
    {
        match self {
            Kind::Base64Decode => "Enter a Base64 encoded string to decode:",
            Kind::Base64Encode => "Enter a string to Base64 encode:",
            Kind::URLDecode => "Enter a URL encoded string to decode:",
            Kind::URLEncode => "Enter a string to URL encode:",
            Kind::URLParse => "Enter a URL to parse:",
            Kind::HTMLUnescape => "Enter a HTML escaped string to unescape:",
            Kind::HTMLEscape => "Enter a string to HTML escape:",
            Kind::JWTDecode => "Enter a JWT token to decode:",
            Kind::FormatJSON => "Enter some JSON to format (type 'END' on a new line to stop input):",
            Kind::FormatYAML => "Enter some YAML to format (type 'END' on a new line to stop input):",
            Kind::YamlToJSON => "Enter some YAML to convert to JSON (type 'END' on a new line to stop input):",
            Kind::TomlToJSON => "Enter some TOML to convert to JSON (type 'END' on a new line to stop input):",
        }
    }

    /// Whether a tool takes its input over several lines, up to a line that
    /// says `END`. The tools for structured data do.
    pub open spec fn spec_multi_line(self) -> bool {
        self == Kind::FormatJSON || self == Kind::FormatYAML || self == Kind::YamlToJSON || self
            == Kind::TomlToJSON
    }

    /// Whether a tool takes its input over several lines.
    #[verifier::when_used_as_spec(spec_multi_line)]
    pub fn multi_line(self) -> (many: bool)
        ensures
            many == self.spec_multi_line(),
    {
        match self {
            Kind::FormatJSON | Kind::FormatYAML | Kind::YamlToJSON | Kind::TomlToJSON => true,
            _ => false,
        }
    }

    /// Whether a tool can take a text: all can take any, but for the one
    /// that escapes HTML, which has a limit.
    pub open spec fn admits(self, input: Seq<char>) -> bool {
        self == Kind::HTMLEscape ==> escapable(input)
    }

    /// The lines that a tool reports for a text.
    pub open spec fn lines(self, a: &Args, input: Seq<char>) -> Seq<LineView> {
        match self {
            Kind::Base64Decode => report_lines(base_64_text(input), None, None, a.plain),
            Kind::Base64Encode => seq![
                success_line(base64_encoded(encode_utf8(input)), None, a.plain),
            ],
            Kind::URLDecode => report_lines(
                url_decoded(input),
                None,
                Some("Error decoding URL encoded string"@),
                a.plain,
            ),
            Kind::URLEncode => seq![success_line(percent_encoded(input), None, a.plain)],
            Kind::URLParse => url_lines(url_parts(input), a.plain),
            Kind::HTMLUnescape => report_lines(
                html_unescaped(input),
                None,
                Some("Error decoding HTML escaped string"@),
                a.plain,
            ),
            Kind::HTMLEscape => seq![success_line(html_escaped(input), None, a.plain)],
            Kind::JWTDecode => jwt_lines(input, a.header(), a.body(), a.plain),
            Kind::FormatJSON => formatted_lines(json_formatted(input), a.plain),
            Kind::FormatYAML => formatted_lines(yaml_formatted(input), a.plain),
            Kind::YamlToJSON => formatted_lines(yaml_as_json(input), a.plain),
            Kind::TomlToJSON => formatted_lines(toml_as_json(input), a.plain),
        }
    }

    /// Runs a tool on a text.
    pub fn apply(self, a: &Args, input: &str) -> (lines: Vec<Line>)
        requires
            self.admits(input@),
        ensures
            views(lines@) == self.lines(a, input@),
    {
        match self {
            Kind::Base64Decode => base_64_decode(a, input),
            Kind::Base64Encode => base_64_encode(a, input),
            Kind::URLDecode => url_decode(a, input),
            Kind::URLEncode => url_encode(a, input),
            Kind::URLParse => url_parse(a, input),
            Kind::HTMLUnescape => html_unescape(a, input),
            Kind::HTMLEscape => html_escape(a, input),
            Kind::JWTDecode => jwt_decode(a, input),
            Kind::FormatJSON => format_json(a, input),
            Kind::FormatYAML => format_yaml(a, input),
            Kind::YamlToJSON => yaml_to_json(a, input),
            Kind::TomlToJSON => toml_to_json(a, input),
        }
    }
}

} // verus!
