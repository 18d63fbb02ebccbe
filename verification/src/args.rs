//! The parsed request: which tool was asked for, its payload and the global flags.

use vstd::prelude::*;

verus! {

/// The identity of a tool, without anything a request may carry with it.
#[derive(Clone, Copy, Debug, PartialEq, Eq, Structural)]
pub enum Kind {
    Base64Decode,
    Base64Encode,
    URLDecode,
    URLEncode,
    URLParse,
    HTMLUnescape,
    HTMLEscape,
    JWTDecode,
    FormatJSON,
    FormatYAML,
    YamlToJSON,
    TomlToJSON,
}

/// A request for one tool, with the text to work on where it was given.
#[derive(Clone, Debug)]
pub enum Tools {
    Base64Decode { data: Option<String> },
    Base64Encode { data: Option<String> },
    URLDecode { data: Option<String> },
    URLEncode { data: Option<String> },
    URLParse { data: Option<String> },
    HTMLUnescape { data: Option<String> },
    HTMLEscape { data: Option<String> },
    JWTDecode { data: Option<String>, header: bool, payload: bool },
    FormatJSON { data: Option<String> },
    FormatYAML { data: Option<String> },
    YamlToJSON { data: Option<String> },
    TomlToJSON { data: Option<String> },
}

impl Tools {
    /// Which tool the request names.
    pub open spec fn spec_kind(&self) -> Kind {
        match self {
            Tools::Base64Decode { .. } => Kind::Base64Decode,
            Tools::Base64Encode { .. } => Kind::Base64Encode,
            Tools::URLDecode { .. } => Kind::URLDecode,
            Tools::URLEncode { .. } => Kind::URLEncode,
            Tools::URLParse { .. } => Kind::URLParse,
            Tools::HTMLUnescape { .. } => Kind::HTMLUnescape,
            Tools::HTMLEscape { .. } => Kind::HTMLEscape,
            Tools::JWTDecode { .. } => Kind::JWTDecode,
            Tools::FormatJSON { .. } => Kind::FormatJSON,
            Tools::FormatYAML { .. } => Kind::FormatYAML,
            Tools::YamlToJSON { .. } => Kind::YamlToJSON,
            Tools::TomlToJSON { .. } => Kind::TomlToJSON,
        }
    }

    #[verifier::when_used_as_spec(spec_kind)]
    pub fn kind(&self) -> (k: Kind)
        ensures
            k == self.spec_kind(),
    {
        match self {
            Tools::Base64Decode { .. } => Kind::Base64Decode,
            Tools::Base64Encode { .. } => Kind::Base64Encode,
            Tools::URLDecode { .. } => Kind::URLDecode,
            Tools::URLEncode { .. } => Kind::URLEncode,
            Tools::URLParse { .. } => Kind::URLParse,
            Tools::HTMLUnescape { .. } => Kind::HTMLUnescape,
            Tools::HTMLEscape { .. } => Kind::HTMLEscape,
            Tools::JWTDecode { .. } => Kind::JWTDecode,
            Tools::FormatJSON { .. } => Kind::FormatJSON,
            Tools::FormatYAML { .. } => Kind::FormatYAML,
            Tools::YamlToJSON { .. } => Kind::YamlToJSON,
            Tools::TomlToJSON { .. } => Kind::TomlToJSON,
        }
    }
}

impl Tools {
    /// The text that came with the request, if any.
    pub open spec fn spec_data(&self) -> Option<String> {
        match self {
            Tools::Base64Decode { data } => *data,
            Tools::Base64Encode { data } => *data,
            Tools::URLDecode { data } => *data,
            Tools::URLEncode { data } => *data,
            Tools::URLParse { data } => *data,
            Tools::HTMLUnescape { data } => *data,
            Tools::HTMLEscape { data } => *data,
            Tools::JWTDecode { data, .. } => *data,
            Tools::FormatJSON { data } => *data,
            Tools::FormatYAML { data } => *data,
            Tools::YamlToJSON { data } => *data,
            Tools::TomlToJSON { data } => *data,
        }
    }

    /// The text that came with the request, if any.
    pub fn data(&self) -> (data: &Option<String>)
        ensures
            *data == self.spec_data(),
    {
        match self {
            Tools::Base64Decode { data } => data,
            Tools::Base64Encode { data } => data,
            Tools::URLDecode { data } => data,
            Tools::URLEncode { data } => data,
            Tools::URLParse { data } => data,
            Tools::HTMLUnescape { data } => data,
            Tools::HTMLEscape { data } => data,
            Tools::JWTDecode { data, .. } => data,
            Tools::FormatJSON { data } => data,
            Tools::FormatYAML { data } => data,
            Tools::YamlToJSON { data } => data,
            Tools::TomlToJSON { data } => data,
        }
    }

    /// Whether two requests name the same tool. What they carry is not
    /// looked at.
    pub open spec fn spec_same_kind(&self, other: &Tools) -> bool {
        self.kind() == other.kind()
    }

    #[verifier::when_used_as_spec(spec_same_kind)]
    pub fn same_kind(&self, other: &Tools) -> (same: bool)
        ensures
            same == self.spec_same_kind(other),
    {
        self.kind() == other.kind()
    }

    /// The name under which the tool is asked for.
    pub open spec fn name(&self) -> Seq<char> {
        self.kind().name()
    }

    /// The name under which the tool is asked for.
    pub fn to_string(&self) -> (name: String)
        ensures
            name@ == self.name(),
    {
        match self {
            Tools::Base64Decode { .. } => "base64-decode".to_owned(),
            Tools::Base64Encode { .. } => "base64-encode".to_owned(),
            Tools::URLDecode { .. } => "url-decode".to_owned(),
            Tools::URLEncode { .. } => "url-encode".to_owned(),
            Tools::URLParse { .. } => "url-parse".to_owned(),
            Tools::HTMLUnescape { .. } => "html-unescape".to_owned(),
            Tools::HTMLEscape { .. } => "html-escape".to_owned(),
            Tools::JWTDecode { .. } => "jwt-decode".to_owned(),
            Tools::FormatJSON { .. } => "format-json".to_owned(),
            Tools::FormatYAML { .. } => "format-yaml".to_owned(),
            Tools::YamlToJSON { .. } => "yaml-to-json".to_owned(),
            Tools::TomlToJSON { .. } => "toml-to-json".to_owned(),
        }
    }
}

impl Kind {
    /// The request for a tool that carries nothing.
    pub open spec fn spec_tag(self) -> Tools {
        match self {
            Kind::Base64Decode => Tools::Base64Decode { data: None },
            Kind::Base64Encode => Tools::Base64Encode { data: None },
            Kind::URLDecode => Tools::URLDecode { data: None },
            Kind::URLEncode => Tools::URLEncode { data: None },
            Kind::URLParse => Tools::URLParse { data: None },
            Kind::HTMLUnescape => Tools::HTMLUnescape { data: None },
            Kind::HTMLEscape => Tools::HTMLEscape { data: None },
            Kind::JWTDecode => Tools::JWTDecode { data: None, header: false, payload: false },
            Kind::FormatJSON => Tools::FormatJSON { data: None },
            Kind::FormatYAML => Tools::FormatYAML { data: None },
            Kind::YamlToJSON => Tools::YamlToJSON { data: None },
            Kind::TomlToJSON => Tools::TomlToJSON { data: None },
        }
    }

    /// The request for a tool that carries nothing.
    #[verifier::when_used_as_spec(spec_tag)]
    pub fn tag(self) -> (tag: Tools)
        ensures
            tag == self.spec_tag(),
            tag.kind() == self,
    {
        match self {
            Kind::Base64Decode => Tools::Base64Decode { data: None },
            Kind::Base64Encode => Tools::Base64Encode { data: None },
            Kind::URLDecode => Tools::URLDecode { data: None },
            Kind::URLEncode => Tools::URLEncode { data: None },
            Kind::URLParse => Tools::URLParse { data: None },
            Kind::HTMLUnescape => Tools::HTMLUnescape { data: None },
            Kind::HTMLEscape => Tools::HTMLEscape { data: None },
            Kind::JWTDecode => Tools::JWTDecode { data: None, header: false, payload: false },
            Kind::FormatJSON => Tools::FormatJSON { data: None },
            Kind::FormatYAML => Tools::FormatYAML { data: None },
            Kind::YamlToJSON => Tools::YamlToJSON { data: None },
            Kind::TomlToJSON => Tools::TomlToJSON { data: None },
        }
    }

    /// The label of the tool in the menu.
    pub open spec fn spec_label(self) -> Seq<char> {
        match self {
            Kind::Base64Decode => "Base64 Decode"@,
            Kind::Base64Encode => "Base64 Encode"@,
            Kind::URLDecode => "URL Decode"@,
            Kind::URLEncode => "URL Encode"@,
            Kind::URLParse => "URL Parse"@,
            Kind::HTMLUnescape => "HTML Unescape"@,
            Kind::HTMLEscape => "HTML Escape"@,
            Kind::JWTDecode => "JWT Decode"@,
            Kind::FormatJSON => "Format JSON"@,
            Kind::FormatYAML => "Format YAML"@,
            Kind::YamlToJSON => "YAML to JSON"@,
            Kind::TomlToJSON => "TOML to JSON"@,
        }
    }

    /// The label of the tool in the menu.
    pub fn label(self) -> (label: &'static str)
        ensures
            label@ == self.spec_label(),
    {
        match self {
            Kind::Base64Decode => "Base64 Decode",
            Kind::Base64Encode => "Base64 Encode",
            Kind::URLDecode => "URL Decode",
            Kind::URLEncode => "URL Encode",
            Kind::URLParse => "URL Parse",
            Kind::HTMLUnescape => "HTML Unescape",
            Kind::HTMLEscape => "HTML Escape",
            Kind::JWTDecode => "JWT Decode",
            Kind::FormatJSON => "Format JSON",
            Kind::FormatYAML => "Format YAML",
            Kind::YamlToJSON => "YAML to JSON",
            Kind::TomlToJSON => "TOML to JSON",
        }
    }

    /// The place of the tool in the catalogue, counted from zero.
    pub open spec fn index(self) -> int {
        match self {
            Kind::Base64Decode => 0,
            Kind::Base64Encode => 1,
            Kind::URLDecode => 2,
            Kind::URLEncode => 3,
            Kind::URLParse => 4,
            Kind::HTMLUnescape => 5,
            Kind::HTMLEscape => 6,
            Kind::JWTDecode => 7,
            Kind::FormatJSON => 8,
            Kind::FormatYAML => 9,
            Kind::YamlToJSON => 10,
            Kind::TomlToJSON => 11,
        }
    }

    /// The tools in the order of the catalogue.
    pub open spec fn all() -> Seq<Kind> {
        seq![
            Kind::Base64Decode,
            Kind::Base64Encode,
            Kind::URLDecode,
            Kind::URLEncode,
            Kind::URLParse,
            Kind::HTMLUnescape,
            Kind::HTMLEscape,
            Kind::JWTDecode,
            Kind::FormatJSON,
            Kind::FormatYAML,
            Kind::YamlToJSON,
            Kind::TomlToJSON,
        ]
    }

    /// The name under which the tool is asked for.
    pub open spec fn name(self) -> Seq<char> {
        match self {
            Kind::Base64Decode => "base64-decode"@,
            Kind::Base64Encode => "base64-encode"@,
            Kind::URLDecode => "url-decode"@,
            Kind::URLEncode => "url-encode"@,
            Kind::URLParse => "url-parse"@,
            Kind::HTMLUnescape => "html-unescape"@,
            Kind::HTMLEscape => "html-escape"@,
            Kind::JWTDecode => "jwt-decode"@,
            Kind::FormatJSON => "format-json"@,
            Kind::FormatYAML => "format-yaml"@,
            Kind::YamlToJSON => "yaml-to-json"@,
            Kind::TomlToJSON => "toml-to-json"@,
        }
    }
}

/// What one run was asked to do.
#[derive(Clone, Debug)]
pub struct Args {
    /// The tool asked for, if one was named.
    pub tool: Option<Tools>,
    /// List the tools and stop.
    pub list: bool,
    /// Show results without labels.
    pub plain: bool,
}

impl Args {
    /// The text that the request brings for a tool: the data of the request,
    /// where the request names that very tool.
    pub open spec fn spec_payload(&self, kind: Kind) -> Option<Seq<char>> {
        match self.tool {
            Some(tool) => if tool.kind() == kind {
                match tool.spec_data() {
                    Some(d) => Some(d@),
                    None => None,
                }
            } else {
                None
            },
            None => None,
        }
    }

    /// The text that the request brings for a tool, if any.
    pub fn payload(&self, kind: Kind) -> (data: Option<&str>)
        ensures
            match data {
                Some(d) => self.spec_payload(kind) == Some(d@),
                None => self.spec_payload(kind) is None,
            },
    {
        match &self.tool {
            Some(tool) => if tool.kind() == kind {
                match tool.data() {
                    Some(d) => Some(d.as_str()),
                    None => None,
                }
            } else {
                None
            },
            None => None,
        }
    }

    /// Whether the request asks for the header of a token.
    pub open spec fn spec_header(&self) -> bool {
        match self.tool {
            Some(Tools::JWTDecode { header, .. }) => header,
            _ => false,
        }
    }

    /// Whether the request asks for the header of a token.
    #[verifier::when_used_as_spec(spec_header)]
    pub fn header(&self) -> (flag: bool)
        ensures
            flag == self.spec_header(),
    {
        match &self.tool {
            Some(Tools::JWTDecode { header, .. }) => *header,
            _ => false,
        }
    }

    /// Whether the request asks for the payload of a token.
    pub open spec fn spec_body(&self) -> bool {
        match self.tool {
            Some(Tools::JWTDecode { payload, .. }) => payload,
            _ => false,
        }
    }

    /// Whether the request asks for the payload of a token.
    #[verifier::when_used_as_spec(spec_body)]
    pub fn body(&self) -> (flag: bool)
        ensures
            flag == self.spec_body(),
    {
        match &self.tool {
            Some(Tools::JWTDecode { payload, .. }) => *payload,
            _ => false,
        }
    }
}

} // verus!
