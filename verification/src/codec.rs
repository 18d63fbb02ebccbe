//! The transforms that other crates perform.
//!
//! Nothing in this file is proved. Each function makes one call into another
//! crate (or into `std`) and states what that call returns: by its rule
//! where the rule is short, and by a name, a function without a body, where
//! the answer is too long to write down. An error of the other crate is
//! handed back as the text it prints.

use crate::escape::{html_escaped, percent_encoded};
use vstd::prelude::*;
use vstd::utf8::{decode_utf8, encode_utf8, valid_utf8};

verus! {

/// The text that `base64`'s `STANDARD_NO_PAD` engine makes of some bytes.
pub uninterp spec fn base64_encoded(bytes: Seq<u8>) -> Seq<char>;

/// The bytes that `base64`'s `STANDARD_NO_PAD` engine reads from a text, or
/// the message of its `DecodeError`.
pub uninterp spec fn base64_decoded(text: Seq<char>) -> Result<Seq<u8>, Seq<char>>;

/// The message of the `FromUtf8Error` that `String::from_utf8` gives for
/// bytes that are not UTF-8.
pub uninterp spec fn utf8_fault(bytes: Seq<u8>) -> Seq<char>;

/// The text that `urlencoding::decode` reads from a text, or the message of
/// its error.
pub uninterp spec fn percent_decoded(text: Seq<char>) -> Result<Seq<char>, Seq<char>>;

/// The text that `htmlescape::decode_html` reads from a text, or its
/// `DecodeErr` in debug form.
pub uninterp spec fn html_unescaped(text: Seq<char>) -> Result<Seq<char>, Seq<char>>;

/// The components that `url::Url::parse` finds in a text, or the message of
/// its `ParseError`.
pub uninterp spec fn url_parts(text: Seq<char>) -> Result<UrlPartsView, Seq<char>>;

/// The value that `serde_json::from_str` reads from a text, or the message
/// of its error.
pub uninterp spec fn json_value(text: Seq<char>) -> Result<serde_json::Value, Seq<char>>;

/// The text that `serde_json::to_string_pretty` makes of a JSON value, or
/// the message of its error.
pub uninterp spec fn json_text(value: serde_json::Value) -> Result<Seq<char>, Seq<char>>;

/// The value that `serde_yaml_ng::from_str` reads from a text, or the
/// message of its error.
pub uninterp spec fn yaml_value(text: Seq<char>) -> Result<serde_yaml_ng::Value, Seq<char>>;

/// The text that `serde_yaml_ng::to_string` makes of a YAML value, or the
/// message of its error.
pub uninterp spec fn yaml_text(value: serde_yaml_ng::Value) -> Result<Seq<char>, Seq<char>>;

/// The text that `serde_json::to_string_pretty` makes of a YAML value, or
/// the message of its error.
pub uninterp spec fn yaml_json_text(value: serde_yaml_ng::Value) -> Result<Seq<char>, Seq<char>>;

/// The value that `toml::from_str` reads from a text, or the message of its
/// error.
pub uninterp spec fn toml_value(text: Seq<char>) -> Result<toml::Value, Seq<char>>;

/// The text that `serde_json::to_string_pretty` makes of a TOML value, or
/// the message of its error.
pub uninterp spec fn toml_json_text(value: toml::Value) -> Result<Seq<char>, Seq<char>>;

/// `serde_json::Value`, carried from the parser to the printer unread.
#[verifier::external_type_specification]
#[verifier::external_body]
pub struct ExJsonValue(serde_json::Value);

/// `serde_yaml_ng::Value`, carried from the parser to the printer unread.
#[verifier::external_type_specification]
#[verifier::external_body]
pub struct ExYamlValue(serde_yaml_ng::Value);

/// `toml::Value`, carried from the parser to the printer unread.
#[verifier::external_type_specification]
#[verifier::external_body]
pub struct ExTomlValue(toml::Value);

/// The components of a URL, each as the `url` crate hands it out.
#[derive(Clone, Debug, PartialEq, Eq)]
pub struct UrlParts {
    pub scheme: String,
    pub username: String,
    pub password: Option<String>,
    pub host: Option<String>,
    pub port: Option<u16>,
    pub path: String,
    pub query: Option<String>,
    pub fragment: Option<String>,
}

/// The components of a URL as mathematical text.
pub struct UrlPartsView {
    pub scheme: Seq<char>,
    pub username: Seq<char>,
    pub password: Option<Seq<char>>,
    pub host: Option<Seq<char>>,
    pub port: Option<u16>,
    pub path: Seq<char>,
    pub query: Option<Seq<char>>,
    pub fragment: Option<Seq<char>>,
}

/// The view of an optional owned text.
pub open spec fn optional_text(s: Option<String>) -> Option<Seq<char>> {
    match s {
        Some(t) => Some(t@),
        None => None,
    }
}

impl View for UrlParts {
    type V = UrlPartsView;

    open spec fn view(&self) -> UrlPartsView {
        UrlPartsView {
            scheme: self.scheme@,
            username: self.username@,
            password: optional_text(self.password),
            host: optional_text(self.host),
            port: self.port,
            path: self.path@,
            query: optional_text(self.query),
            fragment: optional_text(self.fragment),
        }
    }
}

/// The view of a transform's outcome: the text it made, or the message of
/// what went wrong.
pub open spec fn outcome(r: Result<String, String>) -> Result<Seq<char>, Seq<char>> {
    match r {
        Ok(s) => Ok(s@),
        Err(e) => Err(e@),
    }
}

/// `Engine::encode` on `base64::engine::general_purpose::STANDARD_NO_PAD`,
/// given the text's UTF-8 bytes. The same engine decodes what it encoded to
/// the bytes it was given.
#[verifier::external_body]
pub(crate) fn base64_encode(input: &str) -> (text: String)
    ensures
        text@ == base64_encoded(encode_utf8(input@)),
        (base64_decoded(text@) == Ok::<Seq<u8>, Seq<char>>(encode_utf8(input@))),
{
    base64::Engine::encode(&base64::engine::general_purpose::STANDARD_NO_PAD, input)
}

/// `Engine::decode` on `base64::engine::general_purpose::STANDARD_NO_PAD`.
/// The error comes back as the text that `DecodeError` displays.
#[verifier::external_body]
pub(crate) fn base64_decode(input: &str) -> (r: Result<Vec<u8>, String>)
    ensures
        match r {
            Ok(bytes) => base64_decoded(input@) == Ok::<Seq<u8>, Seq<char>>(bytes@),
            Err(e) => base64_decoded(input@) == Err::<Seq<u8>, Seq<char>>(e@),
        },
{
    base64::Engine::decode(&base64::engine::general_purpose::STANDARD_NO_PAD, input).map_err(
        |e| e.to_string(),
    )
}

/// `String::from_utf8`: the text that the bytes spell where they are valid
/// UTF-8, else the text that `FromUtf8Error` displays.
#[verifier::external_body]
pub(crate) fn utf8_string(bytes: Vec<u8>) -> (r: Result<String, String>)
    ensures
        match r {
            Ok(s) => valid_utf8(bytes@) && s@ == decode_utf8(bytes@),
            Err(e) => !valid_utf8(bytes@) && e@ == utf8_fault(bytes@),
        },
{
    String::from_utf8(bytes).map_err(|e| e.to_string())
}

/// `urlencoding::encode`: every byte of the text's UTF-8 form stands for
/// itself where it is an ASCII letter, a digit or one of `-`, `.`, `_`, `~`,
/// and becomes `%` and two upper-case hexadecimal digits where it is not.
/// `urlencoding::decode` reads what it wrote back to the text it was given.
#[verifier::external_body]
pub(crate) fn percent_encode(input: &str) -> (text: String)
    ensures
        text@ == percent_encoded(input@),
        (percent_decoded(text@) == Ok::<Seq<char>, Seq<char>>(input@)),
{
    urlencoding::encode(input).into_owned()
}

/// `urlencoding::decode`. The error comes back as the text that it displays.
#[verifier::external_body]
pub(crate) fn percent_decode(input: &str) -> (r: Result<String, String>)
    ensures
        outcome(r) == percent_decoded(input@),
{
    match urlencoding::decode(input) {
        Ok(text) => Ok(text.into_owned()),
        Err(e) => Err(e.to_string()),
    }
}

/// Whether a text is short enough for `htmlescape::encode_attribute`, which
/// reserves three bytes for each byte of its input before it starts.
pub open spec fn escapable(text: Seq<char>) -> bool {
    3 * encode_utf8(text).len() <= isize::MAX
}

/// `htmlescape::encode_attribute`: the five marks of HTML become their
/// entities, every other character below 256 that is no ASCII letter or
/// digit becomes a two-digit hexadecimal reference, and the rest stands.
#[verifier::external_body]
pub(crate) fn escape_html(input: &str) -> (text: String)
    requires
        escapable(input@),
    ensures
        text@ == html_escaped(input@),
{
    htmlescape::encode_attribute(input)
}

/// `htmlescape::decode_html`. The error comes back in the debug form of
/// `DecodeErr`.
#[verifier::external_body]
pub(crate) fn unescape_html(input: &str) -> (r: Result<String, String>)
    ensures
        outcome(r) == html_unescaped(input@),
{
    htmlescape::decode_html(input).map_err(|e| format!("{e:?}"))
}

/// `url::Url::parse`, and the accessors of `Url` for each component. The
/// error comes back as the text that `ParseError` displays.
#[verifier::external_body]
pub(crate) fn parse_url(input: &str) -> (r: Result<UrlParts, String>)
    ensures
        match r {
            Ok(parts) => url_parts(input@) == Ok::<UrlPartsView, Seq<char>>(parts@),
            Err(e) => url_parts(input@) == Err::<UrlPartsView, Seq<char>>(e@),
        },
{
    let url = url::Url::parse(input).map_err(|e| e.to_string())?;
    Ok(
        UrlParts {
            scheme: url.scheme().to_owned(),
            username: url.username().to_owned(),
            password: url.password().map(str::to_owned),
            host: url.host_str().map(str::to_owned),
            port: url.port(),
            path: url.path().to_owned(),
            query: url.query().map(str::to_owned),
            fragment: url.fragment().map(str::to_owned),
        },
    )
}

/// `serde_json::from_str` for a `serde_json::Value`. The error comes back as
/// the text that it displays.
#[verifier::external_body]
pub(crate) fn parse_json(input: &str) -> (r: Result<serde_json::Value, String>)
    ensures
        match r {
            Ok(v) => json_value(input@) == Ok::<serde_json::Value, Seq<char>>(v),
            Err(e) => json_value(input@) == Err::<serde_json::Value, Seq<char>>(e@),
        },
{
    serde_json::from_str::<serde_json::Value>(input).map_err(|e| e.to_string())
}

/// `serde_json::to_string_pretty` on a `serde_json::Value`. The error comes
/// back as the text that it displays.
#[verifier::external_body]
pub(crate) fn print_json(value: &serde_json::Value) -> (r: Result<String, String>)
    ensures
        outcome(r) == json_text(*value),
{
    serde_json::to_string_pretty(value).map_err(|e| e.to_string())
}

/// `serde_yaml_ng::from_str` for a `serde_yaml_ng::Value`. The error comes
/// back as the text that it displays.
#[verifier::external_body]
pub(crate) fn parse_yaml(input: &str) -> (r: Result<serde_yaml_ng::Value, String>)
    ensures
        match r {
            Ok(v) => yaml_value(input@) == Ok::<serde_yaml_ng::Value, Seq<char>>(v),
            Err(e) => yaml_value(input@) == Err::<serde_yaml_ng::Value, Seq<char>>(e@),
        },
{
    serde_yaml_ng::from_str::<serde_yaml_ng::Value>(input).map_err(|e| e.to_string())
}

/// `serde_yaml_ng::to_string` on a `serde_yaml_ng::Value`. The error comes
/// back as the text that it displays.
#[verifier::external_body]
pub(crate) fn print_yaml(value: &serde_yaml_ng::Value) -> (r: Result<String, String>)
    ensures
        outcome(r) == yaml_text(*value),
{
    serde_yaml_ng::to_string(value).map_err(|e| e.to_string())
}

/// `serde_json::to_string_pretty` on a `serde_yaml_ng::Value`. The error
/// comes back as the text that it displays.
#[verifier::external_body]
pub(crate) fn print_yaml_as_json(value: &serde_yaml_ng::Value) -> (r: Result<String, String>)
    ensures
        outcome(r) == yaml_json_text(*value),
{
    serde_json::to_string_pretty(value).map_err(|e| e.to_string())
}

/// `toml::from_str` for a `toml::Value`. The error comes back as the text
/// that it displays.
#[verifier::external_body]
pub(crate) fn parse_toml(input: &str) -> (r: Result<toml::Value, String>)
    ensures
        match r {
            Ok(v) => toml_value(input@) == Ok::<toml::Value, Seq<char>>(v),
            Err(e) => toml_value(input@) == Err::<toml::Value, Seq<char>>(e@),
        },
{
    toml::from_str::<toml::Value>(input).map_err(|e| e.to_string())
}

/// `serde_json::to_string_pretty` on a `toml::Value`. The error comes back
/// as the text that it displays.
#[verifier::external_body]
pub(crate) fn print_toml_as_json(value: &toml::Value) -> (r: Result<String, String>)
    ensures
        outcome(r) == toml_json_text(*value),
{
    serde_json::to_string_pretty(value).map_err(|e| e.to_string())
}

} // verus!
