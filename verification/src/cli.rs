//! The output styles that a front end offers.

use crate::output::OutputType;
use crate::text::same_text;
use vstd::prelude::*;
use vstd::string::*;

verus! {

/// `s` in lower case: what `str::to_lowercase` returns for it.
pub uninterp spec fn lowercased(s: Seq<char>) -> Seq<char>;

/// Calls `str::to_lowercase`. Trusted: the result depends on the characters of
/// `s` alone. Nothing more is claimed of it.
#[verifier::external_body]
fn lowercase(s: &str) -> (res: String)
    ensures
        res@ == lowercased(s@),
{
    s.to_lowercase()
}

/// A style in which a result is shown.
#[derive(Clone, Copy, Debug, PartialEq, Eq, Structural)]
pub enum OutputFormat {
    /// A JSON object on one line.
    Json,
    /// A JSON object, indented.
    JsonPretty,
    /// Headed sections, in colour where the terminal has it.
    Pretty,
    /// Every line as a comment of the language.
    Comment,
    /// The text alone.
    Raw,
}

impl OutputFormat {
    /// The name by which a style is chosen.
    pub open spec fn name(self) -> Seq<char> {
        match self {
            OutputFormat::Json => "json"@,
            OutputFormat::JsonPretty => "json-pretty"@,
            OutputFormat::Pretty => "pretty"@,
            OutputFormat::Comment => "comment"@,
            OutputFormat::Raw => "raw"@,
        }
    }

    /// The style that a name in lower case chooses. A name that is none of the
    /// known ones chooses the text alone.
    pub open spec fn named(name: Seq<char>) -> OutputFormat {
        if name == "json"@ {
            OutputFormat::Json
        } else if name == "json-pretty"@ {
            OutputFormat::JsonPretty
        } else if name == "pretty"@ {
            OutputFormat::Pretty
        } else if name == "comment"@ {
            OutputFormat::Comment
        } else {
            OutputFormat::Raw
        }
    }

    /// The rendering of a result that goes with a style: the two structured
    /// styles have their own, every other style works on the plain one.
    pub open spec fn output_type(self) -> OutputType {
        match self {
            OutputFormat::Json => OutputType::JSON,
            OutputFormat::JsonPretty => OutputType::JsonPretty,
            _ => OutputType::Raw,
        }
    }

    /// The style that `name`, which is in lower case, chooses.
    pub fn from_name(name: &str) -> (res: Self)
        ensures
            res == Self::named(name@),
    {
        if same_text(name, "json") {
            OutputFormat::Json
        } else if same_text(name, "json-pretty") {
            OutputFormat::JsonPretty
        } else if same_text(name, "pretty") {
            OutputFormat::Pretty
        } else if same_text(name, "comment") {
            OutputFormat::Comment
        } else {
            OutputFormat::Raw
        }
    }

    /// The name by which the style is chosen.
    pub fn to_string(&self) -> (res: String)
        ensures
            res@ == self.name(),
    {
        let str = match self {
            OutputFormat::Json => "json",
            OutputFormat::JsonPretty => "json-pretty",
            OutputFormat::Pretty => "pretty",
            OutputFormat::Comment => "comment",
            OutputFormat::Raw => "raw",
        };
        String::from_str(str)
    }
}

impl Default for OutputFormat {
    /// The style that is used where none is chosen.
    fn default() -> (res: Self)
        ensures
            res == OutputFormat::Pretty,
    {
        OutputFormat::Pretty
    }
}

impl From<String> for OutputFormat {
    /// The style that `value` chooses, whatever the case of its letters.
    fn from(value: String) -> (res: Self) {
        let name = lowercase(value.as_str());
        OutputFormat::from_name(name.as_str())
    }
}

impl vstd::std_specs::convert::FromSpecImpl<String> for OutputFormat {
    open spec fn obeys_from_spec() -> bool {
        true
    }

    open spec fn from_spec(value: String) -> Self {
        OutputFormat::named(lowercased(value@))
    }
}

impl From<OutputFormat> for OutputType {
    /// The rendering of a result that goes with a style.
    fn from(value: OutputFormat) -> (res: Self) {
        match value {
            OutputFormat::Json => OutputType::JSON,
            OutputFormat::JsonPretty => OutputType::JsonPretty,
            _ => OutputType::Raw,
        }
    }
}

impl vstd::std_specs::convert::FromSpecImpl<OutputFormat> for OutputType {
    open spec fn obeys_from_spec() -> bool {
        true
    }

    open spec fn from_spec(value: OutputFormat) -> Self {
        value.output_type()
    }
}

} // verus!
