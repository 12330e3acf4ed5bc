//! What a run produced, and its renderings.

use crate::text::{decimal, decimal_string, same_text};
use crate::utils::{decoded, u8_to_str};
use vstd::pervasive::unreached;
use vstd::prelude::*;
use vstd::string::*;

verus! {

/// How [`Output::to_string`] renders.
#[derive(Clone, Copy, Debug, PartialEq, Eq, Structural)]
pub enum OutputType {
    /// A JSON object on one line.
    JSON,
    /// A JSON object, indented by two blanks.
    JsonPretty,
    /// Two plain sections.
    Raw,
}

impl OutputType {
    /// The name by which a rendering is chosen.
    pub open spec fn name(self) -> Seq<char> {
        match self {
            OutputType::JSON => "json"@,
            OutputType::JsonPretty => "json-pretty"@,
            OutputType::Raw => "raw"@,
        }
    }

    /// The rendering that `name` chooses: the one-line object for `json`, the
    /// plain one for anything else.
    pub open spec fn named(name: Seq<char>) -> OutputType {
        if name == "json"@ {
            OutputType::JSON
        } else {
            OutputType::Raw
        }
    }

    /// The name by which the rendering is chosen.
    pub fn to_string(&self) -> (res: String)
        ensures
            res@ == self.name(),
    {
        let str = match self {
            OutputType::JSON => "json",
            OutputType::JsonPretty => "json-pretty",
            OutputType::Raw => "raw",
        };
        String::from_str(str)
    }
}

impl From<String> for OutputType {
    /// The rendering that `value` chooses.
    fn from(value: String) -> (res: Self) {
        if same_text(value.as_str(), "json") {
            OutputType::JSON
        } else {
            OutputType::Raw
        }
    }
}

impl vstd::std_specs::convert::FromSpecImpl<String> for OutputType {
    open spec fn obeys_from_spec() -> bool {
        true
    }

    open spec fn from_spec(value: String) -> Self {
        OutputType::named(value@)
    }
}

/// The sixteen hexadecimal digits, by value.
pub open spec fn hex_digit(d: int) -> char {
    seq!['0', '1', '2', '3', '4', '5', '6', '7', '8', '9', 'a', 'b', 'c', 'd', 'e', 'f'][d]
}

/// One character inside a JSON string: the quote, the backslash and the control
/// characters below the blank are escaped, every other character stands for
/// itself.
pub open spec fn json_escape(c: char) -> Seq<char> {
    let n = c as u32;
    if n == 0x22 {
        seq!['\\', '"']
    } else if n == 0x5C {
        seq!['\\', '\\']
    } else if n == 0x08 {
        seq!['\\', 'b']
    } else if n == 0x09 {
        seq!['\\', 't']
    } else if n == 0x0A {
        seq!['\\', 'n']
    } else if n == 0x0C {
        seq!['\\', 'f']
    } else if n == 0x0D {
        seq!['\\', 'r']
    } else if n < 0x20 {
        seq!['\\', 'u', '0', '0', hex_digit(n as int / 16), hex_digit(n as int % 16)]
    } else {
        seq![c]
    }
}

/// The characters of `s`, each as it stands inside a JSON string.
pub open spec fn json_escaped(s: Seq<char>) -> Seq<char>
    decreases s.len(),
{
    if s.len() == 0 {
        Seq::empty()
    } else {
        json_escaped(s.drop_last()) + json_escape(s.last())
    }
}

/// `s` as a JSON string, between its quotes.
pub open spec fn json_string(s: Seq<char>) -> Seq<char> {
    seq!['"'] + json_escaped(s) + seq!['"']
}

/// A JSON string stands on one line: it begins and ends with a quote, and holds
/// no control character below the blank, whatever the text.
pub proof fn lemma_json_string_is_one_line(s: Seq<char>)
    ensures
        json_string(s).len() >= 2,
        json_string(s).first() == '"',
        json_string(s).last() == '"',
        forall|i: int| 0 <= i < json_string(s).len() ==> json_string(s)[i] as u32 >= 0x20,
{
    lemma_escaped_has_no_control(s);
}

/// Escaped text holds no control character below the blank.
proof fn lemma_escaped_has_no_control(s: Seq<char>)
    ensures
        forall|i: int| 0 <= i < json_escaped(s).len() ==> json_escaped(s)[i] as u32 >= 0x20,
    decreases s.len(),
{
    if s.len() > 0 {
        lemma_escaped_has_no_control(s.drop_last());
        let head = json_escaped(s.drop_last());
        let tail = json_escape(s.last());
        assert forall|j: int| 0 <= j < tail.len() implies tail[j] as u32 >= 0x20 by {
            let n = s.last() as u32;
            if n < 0x20 && n != 0x08 && n != 0x09 && n != 0x0A && n != 0x0C && n != 0x0D {
                assert(0 <= n as int / 16 < 2);
                assert(0 <= n as int % 16 < 16);
            }
        }
        assert forall|i: int| 0 <= i < json_escaped(s).len() implies json_escaped(s)[i] as u32
            >= 0x20 by {
            if i >= head.len() {
                assert(json_escaped(s)[i] == tail[i - head.len()]);
            }
        }
    }
}

/// Calls `serde_json::to_string` on a string slice. Trusted: the result is the
/// slice between two quotes, with the quote, the backslash and the control
/// characters below the blank escaped as the crate's escape table has them and
/// every other character unchanged. The call cannot fail: on this path the only
/// errors are those of the writer, and the writer is a byte vector.
#[verifier::external_body]
fn json_quote(s: &str) -> (res: Option<String>)
    ensures
        res is Some,
        res matches Some(text) ==> text@ == json_string(s@),
{
    match serde_json::to_string(s) {
        Ok(text) => Some(text),
        Err(_) => None,
    }
}

/// The name under which a rendering appears in the structured forms.
pub open spec fn format_name(format: OutputType) -> Seq<char> {
    match format {
        OutputType::JSON => "JSON"@,
        OutputType::JsonPretty => "JsonPretty"@,
        OutputType::Raw => "Raw"@,
    }
}

/// The one-line object with the fields `format`, `stdout`, `stderr` and `code`,
/// in this order; `stdout` and `stderr` are given as JSON strings.
pub open spec fn compact_object(
    format: OutputType,
    stdout: Seq<char>,
    stderr: Seq<char>,
    code: int,
) -> Seq<char> {
    "{\"format\":\""@ + format_name(format) + "\",\"stdout\":"@ + stdout + ",\"stderr\":"@
        + stderr + ",\"code\":"@ + decimal(code) + "}"@
}

/// The same object, one field to a line, indented by two blanks.
pub open spec fn pretty_object(
    format: OutputType,
    stdout: Seq<char>,
    stderr: Seq<char>,
    code: int,
) -> Seq<char> {
    "{\n  \"format\": \""@ + format_name(format) + "\",\n  \"stdout\": "@ + stdout
        + ",\n  \"stderr\": "@ + stderr + ",\n  \"code\": "@ + decimal(code) + "\n}"@
}

/// The plain rendering: a section `Output:` with what was written to standard
/// output, then a section `Error:` with what was written to standard error. A
/// section without text is left out altogether.
pub open spec fn raw_text(stdout: Seq<char>, stderr: Seq<char>) -> Seq<char> {
    (if stdout.len() > 0 {
        "Output:\n"@ + stdout
    } else {
        Seq::empty()
    }) + (if stderr.len() > 0 {
        "Error:\n"@ + stderr
    } else {
        Seq::empty()
    })
}

/// What an [`Output`] holds.
pub ghost struct OutputView {
    /// The rendering that `to_string` uses.
    pub format: OutputType,
    /// What the process wrote to standard output.
    pub stdout: Seq<char>,
    /// What the process wrote to standard error.
    pub stderr: Seq<char>,
    /// The exit code.
    pub code: i32,
    /// Where the run's artifact was to be found.
    pub output_file: Seq<char>,
}

impl OutputView {
    /// The same result in another rendering.
    pub open spec fn with_format(self, format: OutputType) -> OutputView {
        OutputView { format, ..self }
    }

    /// The rendering in the current format.
    pub open spec fn rendered(self) -> Seq<char> {
        match self.format {
            OutputType::JSON => compact_object(
                self.format,
                json_string(self.stdout),
                json_string(self.stderr),
                self.code as int,
            ),
            OutputType::JsonPretty => pretty_object(
                self.format,
                json_string(self.stdout),
                json_string(self.stderr),
                self.code as int,
            ),
            OutputType::Raw => raw_text(self.stdout, self.stderr),
        }
    }
}

/// Choosing a rendering is idempotent, the rendering chosen last is the one in
/// force, and neither the streams nor the exit code are touched.
pub proof fn lemma_choosing_a_rendering(out: OutputView, first: OutputType, second: OutputType)
    ensures
        out.with_format(first).with_format(first) == out.with_format(first),
        out.with_format(first).with_format(second) == out.with_format(second),
        out.with_format(out.format) == out,
        out.with_format(first).stdout == out.stdout,
        out.with_format(first).stderr == out.stderr,
        out.with_format(first).code == out.code,
        out.with_format(first).output_file == out.output_file,
{
}

/// The plain rendering says nothing of a stream that is empty: it begins with
/// the heading of standard output exactly when something was written there,
/// and it is empty when nothing was written at all.
pub proof fn lemma_raw_sections(stdout: Seq<char>, stderr: Seq<char>)
    ensures
        stdout.len() == 0 && stderr.len() == 0 ==> raw_text(stdout, stderr) == Seq::<char>::empty(),
        stdout.len() > 0 && stderr.len() == 0 ==> raw_text(stdout, stderr) == "Output:\n"@ + stdout,
        stdout.len() == 0 && stderr.len() > 0 ==> raw_text(stdout, stderr) == "Error:\n"@ + stderr,
        stdout.len() > 0 && stderr.len() > 0 ==> raw_text(stdout, stderr) == "Output:\n"@ + stdout
            + "Error:\n"@ + stderr,
{
    assert("Output:\n"@ + stdout + Seq::<char>::empty() =~= "Output:\n"@ + stdout);
    assert(Seq::<char>::empty() + ("Error:\n"@ + stderr) =~= "Error:\n"@ + stderr);
    assert(Seq::<char>::empty() + Seq::<char>::empty() =~= Seq::<char>::empty());
    assert(("Output:\n"@ + stdout) + ("Error:\n"@ + stderr) =~= "Output:\n"@ + stdout
        + "Error:\n"@ + stderr);
}

/// The result of a run.
pub struct Output {
    format: OutputType,
    stdout: String,
    stderr: String,
    code: i32,
    output_file: String,
}

impl View for Output {
    type V = OutputView;

    closed spec fn view(&self) -> OutputView {
        OutputView {
            format: self.format,
            stdout: self.stdout@,
            stderr: self.stderr@,
            code: self.code,
            output_file: self.output_file@,
        }
    }
}

/// The name of `format` in the structured forms.
fn format_label(format: OutputType) -> (res: &'static str)
    ensures
        res@ == format_name(format),
{
    match format {
        OutputType::JSON => "JSON",
        OutputType::JsonPretty => "JsonPretty",
        OutputType::Raw => "Raw",
    }
}

/// Frames the one-line object round two JSON strings.
pub fn frame_compact(format: OutputType, stdout: &str, stderr: &str, code: i32) -> (res: String)
    ensures
        res@ == compact_object(format, stdout@, stderr@, code as int),
{
    let mut out = String::from_str("{\"format\":\"");
    out.append(format_label(format));
    out.append("\",\"stdout\":");
    out.append(stdout);
    out.append(",\"stderr\":");
    out.append(stderr);
    out.append(",\"code\":");
    out.append(decimal_string(code as i64).as_str());
    out.append("}");
    out
}

/// Frames the indented object round two JSON strings.
pub fn frame_pretty(format: OutputType, stdout: &str, stderr: &str, code: i32) -> (res: String)
    ensures
        res@ == pretty_object(format, stdout@, stderr@, code as int),
{
    let mut out = String::from_str("{\n  \"format\": \"");
    out.append(format_label(format));
    out.append("\",\n  \"stdout\": ");
    out.append(stdout);
    out.append(",\n  \"stderr\": ");
    out.append(stderr);
    out.append(",\n  \"code\": ");
    out.append(decimal_string(code as i64).as_str());
    out.append("\n}");
    out
}

/// `s` as a JSON string.
pub fn json_string_of(s: &str) -> (res: String)
    ensures
        res@ == json_string(s@),
{
    match json_quote(s) {
        Some(text) => text,
        None => unreached(),
    }
}

impl Output {
    /// A result with the given parts; text that is absent is empty. No artifact
    /// is recorded.
    pub fn new(format: OutputType, stdout: Option<String>, stderr: Option<String>, code: i32) -> (res:
        Self)
        ensures
            res@ == (OutputView {
                format,
                stdout: match stdout {
                    Some(text) => text@,
                    None => Seq::empty(),
                },
                stderr: match stderr {
                    Some(text) => text@,
                    None => Seq::empty(),
                },
                code,
                output_file: Seq::empty(),
            }),
    {
        Output {
            format,
            stdout: match stdout {
                Some(text) => text,
                None => String::new(),
            },
            stderr: match stderr {
                Some(text) => text,
                None => String::new(),
            },
            code,
            output_file: String::new(),
        }
    }

    /// A result from what a process left: its two streams, decoded, and its
    /// exit code, which is 0 where the system reported none.
    pub fn from_u8(format: OutputType, stdout: &Vec<u8>, stderr: &Vec<u8>, code: Option<i32>) -> (res:
        Self)
        ensures
            res@ == (OutputView {
                format,
                stdout: decoded(stdout@),
                stderr: decoded(stderr@),
                code: match code {
                    Some(n) => n,
                    None => 0i32,
                },
                output_file: Seq::empty(),
            }),
    {
        Output {
            format,
            code: match code {
                Some(n) => n,
                None => 0,
            },
            stdout: u8_to_str(stdout),
            stderr: u8_to_str(stderr),
            output_file: String::new(),
        }
    }

    /// Whether anything was written to standard output.
    pub fn has_stdout(&self) -> (res: bool)
        ensures
            res == (self@.stdout.len() > 0),
    {
        !self.stdout.as_str().is_empty()
    }

    /// Whether anything was written to standard error.
    pub fn has_stderr(&self) -> (res: bool)
        ensures
            res == (self@.stderr.len() > 0),
    {
        !self.stderr.as_str().is_empty()
    }

    /// The plain rendering.
    pub fn raw_to_string(&self) -> (res: String)
        ensures
            res@ == raw_text(self@.stdout, self@.stderr),
    {
        let mut output = String::new();
        if self.has_stdout() {
            output.append("Output:\n");
            output.append(self.stdout.as_str());
        }
        if self.has_stderr() {
            output.append("Error:\n");
            output.append(self.stderr.as_str());
        }
        proof {
            assert(output@ =~= raw_text(self@.stdout, self@.stderr));
        }
        output
    }

    /// Chooses the rendering. The streams and the exit code stay as they are.
    pub fn output_as(&mut self, output_type: OutputType)
        ensures
            final(self)@ == old(self)@.with_format(output_type),
    {
        self.format = output_type;
    }

    /// Records where the run's artifact was to be found.
    pub fn set_output_file(&mut self, path: String)
        ensures
            final(self)@ == (OutputView { output_file: path@, ..old(self)@ }),
    {
        self.output_file = path;
    }

    /// What was written to standard output.
    pub fn get_stdout(&self) -> (res: String)
        ensures
            res@ == self@.stdout,
    {
        self.stdout.clone()
    }

    /// What was written to standard error.
    pub fn get_stderr(&self) -> (res: String)
        ensures
            res@ == self@.stderr,
    {
        self.stderr.clone()
    }

    /// The exit code.
    pub fn get_exit_code(&self) -> (res: i32)
        ensures
            res == self@.code,
    {
        self.code
    }

    /// The current rendering.
    pub fn get_format(&self) -> (res: OutputType)
        ensures
            res == self@.format,
    {
        self.format
    }

    /// Where the run's artifact was to be found.
    pub fn get_output_file(&self) -> (res: String)
        ensures
            res@ == self@.output_file,
    {
        self.output_file.clone()
    }

    /// The rendering in the current format.
    pub fn to_string(&self) -> (res: String)
        ensures
            res@ == self@.rendered(),
    {
        match self.format {
            OutputType::JSON => {
                let stdout = json_string_of(self.stdout.as_str());
                let stderr = json_string_of(self.stderr.as_str());
                frame_compact(self.format, stdout.as_str(), stderr.as_str(), self.code)
            },
            OutputType::JsonPretty => {
                let stdout = json_string_of(self.stdout.as_str());
                let stderr = json_string_of(self.stderr.as_str());
                frame_pretty(self.format, stdout.as_str(), stderr.as_str(), self.code)
            },
            OutputType::Raw => self.raw_to_string(),
        }
    }
}

} // verus!
