//! The sections in which a result is shown: what was put in, what came out,
//! and what went wrong.

use crate::cli::OutputFormat;
use crate::text::{lines, replace_all, replace_str, same_text, split_lines, texts, Render};
use termcolor::Color as Terminal;
use vstd::prelude::*;
use vstd::string::*;

verus! {

/// A colour of the terminal.
#[derive(Clone, Copy, Debug, PartialEq, Eq, Structural)]
pub enum Color {
    Black,
    Blue,
    Green,
    Red,
    Cyan,
    Magenta,
    Yellow,
    White,
    /// One of the 256 colours of the extended palette.
    Ansi256(u8),
    /// Red, green and blue.
    Rgb(u8, u8, u8),
}

/// The colour that a name stands for, if it stands for one: what
/// `termcolor::Color::from_str` makes of the name.
pub uninterp spec fn color_named(name: Seq<char>) -> Option<Color>;

/// Calls `termcolor::Color::from_str`. Trusted: whether a name stands for a
/// colour, and for which, depends on the characters of the name alone. Nothing
/// more is claimed of it.
#[verifier::external_body]
fn parse_color(name: &str) -> (res: Option<Color>)
    ensures
        res == color_named(name@),
{
    match <Terminal as std::str::FromStr>::from_str(name) {
        Ok(Terminal::Black) => Some(Color::Black),
        Ok(Terminal::Blue) => Some(Color::Blue),
        Ok(Terminal::Green) => Some(Color::Green),
        Ok(Terminal::Red) => Some(Color::Red),
        Ok(Terminal::Cyan) => Some(Color::Cyan),
        Ok(Terminal::Magenta) => Some(Color::Magenta),
        Ok(Terminal::Yellow) => Some(Color::Yellow),
        Ok(Terminal::White) => Some(Color::White),
        Ok(Terminal::Ansi256(n)) => Some(Color::Ansi256(n)),
        Ok(Terminal::Rgb(r, g, b)) => Some(Color::Rgb(r, g, b)),
        _ => None,
    }
}

/// The colour of a heading: the configured one, or blue where the
/// configuration names none that is known.
pub open spec fn heading_color(parsed: Option<Color>) -> Color {
    match parsed {
        Some(color) => color,
        None => Color::Blue,
    }
}

/// The colour of a heading, given what the configured name stands for.
pub fn color_or_default(parsed: Option<Color>) -> (res: Color)
    ensures
        res == heading_color(parsed),
{
    match parsed {
        Some(color) => color,
        None => Color::Blue,
    }
}

/// How a heading is set.
#[derive(Clone, Copy, Debug, PartialEq, Eq, Structural)]
pub struct Style {
    /// The colour of the letters.
    pub color: Color,
    /// In bold.
    pub bold: bool,
    /// In italics.
    pub italic: bool,
    /// Underlined.
    pub underline: bool,
    /// Struck through.
    pub strikethrough: bool,
}

/// What a [`Section`] holds.
pub ghost struct SectionView {
    /// The heading.
    pub name: Seq<char>,
    /// The mark in front of the heading.
    pub icon: Seq<char>,
    /// The name of the heading's colour.
    pub color: Seq<char>,
    /// Whether the heading is set in bold.
    pub bold: bool,
    /// Whether the heading is set in italics.
    pub italic: bool,
    /// Whether the heading is struck through.
    pub strikethrough: bool,
    /// Whether the heading is underlined.
    pub underline: bool,
    /// The text under the heading.
    pub value: Seq<char>,
}

impl SectionView {
    /// The heading with its mark.
    pub open spec fn header(self) -> Seq<char> {
        self.icon + " "@ + self.name
    }

    /// The section as comments of a language: the heading and each line of the
    /// text, each in the place for the text of `comment`. A section without
    /// text is left out altogether.
    pub open spec fn comment_lines(self, comment: Seq<char>) -> Seq<Seq<char>> {
        if self.value.len() == 0 {
            Seq::empty()
        } else {
            seq![replace_all(comment, "%s"@, self.header())] + commented(
                split_lines(self.value),
                comment,
            )
        }
    }

    /// How the heading is set.
    pub open spec fn style(self) -> Style {
        Style {
            color: heading_color(color_named(self.color)),
            bold: self.bold,
            italic: self.italic,
            underline: self.underline,
            strikethrough: self.strikethrough,
        }
    }

    /// A section headed `name`, with the usual mark, in bold `color`, without
    /// text.
    pub open spec fn headed(name: Seq<char>, color: Seq<char>) -> SectionView {
        SectionView {
            name,
            icon: "#"@,
            color,
            bold: true,
            italic: false,
            strikethrough: false,
            underline: false,
            value: Seq::empty(),
        }
    }
}

/// Each line in the place for the text of `comment`.
pub open spec fn commented(lines: Seq<Seq<char>>, comment: Seq<char>) -> Seq<Seq<char>> {
    Seq::new(lines.len(), |i: int| replace_all(comment, "%s"@, lines[i]))
}

/// One section of what is shown.
pub struct Section {
    name: String,
    icon: String,
    color: String,
    bold: bool,
    italic: bool,
    strikethrough: bool,
    underline: bool,
    value: String,
}

impl View for Section {
    type V = SectionView;

    closed spec fn view(&self) -> SectionView {
        SectionView {
            name: self.name@,
            icon: self.icon@,
            color: self.color@,
            bold: self.bold,
            italic: self.italic,
            strikethrough: self.strikethrough,
            underline: self.underline,
            value: self.value@,
        }
    }
}

/// The mark of a section that names none.
pub fn default_icon() -> (res: String)
    ensures
        res@ == "#"@,
{
    String::from_str("#")
}

/// A section headed `name`, with the usual mark, in bold `color`.
fn headed(name: &str, color: &str) -> (res: Section)
    ensures
        res@ == SectionView::headed(name@, color@),
{
    Section {
        name: String::from_str(name),
        icon: default_icon(),
        color: String::from_str(color),
        bold: true,
        italic: false,
        strikethrough: false,
        underline: false,
        value: String::new(),
    }
}

/// The section for what was put in.
pub fn default_input() -> (res: Section)
    ensures
        res@ == SectionView::headed("Input"@, "blue"@),
{
    headed("Input", "blue")
}

/// The section for what came out.
pub fn default_output() -> (res: Section)
    ensures
        res@ == SectionView::headed("Output"@, "green"@),
{
    headed("Output", "green")
}

/// The section for what went wrong.
pub fn default_error() -> (res: Section)
    ensures
        res@ == SectionView::headed("Error"@, "red"@),
{
    headed("Error", "red")
}

impl Section {
    /// A section without text.
    pub fn new(
        name: String,
        icon: String,
        color: String,
        bold: bool,
        italic: bool,
        strikethrough: bool,
        underline: bool,
    ) -> (res: Self)
        ensures
            res@ == (SectionView {
                name: name@,
                icon: icon@,
                color: color@,
                bold,
                italic,
                strikethrough,
                underline,
                value: Seq::empty(),
            }),
    {
        Section { name, icon, color, bold, italic, strikethrough, underline, value: String::new() }
    }

    /// The text under the heading.
    pub fn get_value(&self) -> (res: String)
        ensures
            res@ == self@.value,
    {
        self.value.clone()
    }

    /// The heading.
    pub fn get_name(&self) -> (res: String)
        ensures
            res@ == self@.name,
    {
        self.name.clone()
    }

    /// The mark in front of the heading.
    pub fn get_icon(&self) -> (res: String)
        ensures
            res@ == self@.icon,
    {
        self.icon.clone()
    }

    /// The name of the heading's colour.
    pub fn get_color(&self) -> (res: String)
        ensures
            res@ == self@.color,
    {
        self.color.clone()
    }

    /// Puts `value` under the heading.
    pub fn resolve_value<T: Render>(&mut self, value: T)
        ensures
            final(self)@ == (SectionView { value: value.rendered(), ..old(self)@ }),
    {
        self.value = value.render();
    }

    /// Whether there is no text under the heading.
    pub fn is_empty(&self) -> (res: bool)
        ensures
            res == (self@.value.len() == 0),
    {
        self.value.as_str().is_empty()
    }

    /// Whether the heading is set in bold.
    pub fn wants_bold(&self) -> (res: bool)
        ensures
            res == self@.bold,
    {
        self.bold
    }

    /// Whether the heading is set in italics.
    pub fn wants_italic(&self) -> (res: bool)
        ensures
            res == self@.italic,
    {
        self.italic
    }

    /// Whether the heading is underlined.
    pub fn wants_underline(&self) -> (res: bool)
        ensures
            res == self@.underline,
    {
        self.underline
    }

    /// Whether the heading is struck through.
    pub fn wants_strikethrough(&self) -> (res: bool)
        ensures
            res == self@.strikethrough,
    {
        self.strikethrough
    }

    /// How the heading is set.
    pub fn get_style(&self) -> (res: Style)
        ensures
            res == self@.style(),
    {
        Style {
            color: color_or_default(parse_color(self.color.as_str())),
            bold: self.bold,
            italic: self.italic,
            underline: self.underline,
            strikethrough: self.strikethrough,
        }
    }

    /// The heading with its mark.
    pub fn get_formatted_header(&self) -> (res: String)
        ensures
            res@ == self@.header(),
    {
        let mut header = self.icon.clone();
        header.append(" ");
        header.append(self.name.as_str());
        header
    }

    /// The section as comments of a language, one string to a line.
    pub fn write_as_comment(&self, comment_string: &str) -> (res: Vec<String>)
        ensures
            texts(res@) == self@.comment_lines(comment_string@),
    {
        let mut out: Vec<String> = Vec::new();
        if self.is_empty() {
            proof {
                assert(texts(out@) =~= Seq::<Seq<char>>::empty());
            }
            return out;
        }
        let header = self.get_formatted_header();
        out.push(replace_str(comment_string, "%s", header.as_str()));
        let body = lines(self.value.as_str());
        let mut i: usize = 0;
        while i < body.len()
            invariant
                i <= body.len(),
                out.len() == i + 1,
                out@[0]@ == replace_all(comment_string@, "%s"@, self@.header()),
                forall|j: int|
                    0 <= j < i ==> out@[j + 1]@ == replace_all(comment_string@, "%s"@, body@[j]@),
            decreases body.len() - i,
        {
            out.push(replace_str(comment_string, "%s", body[i].as_str()));
            i = i + 1;
        }
        proof {
            assert(texts(out@) =~= self@.comment_lines(comment_string@));
        }
        out
    }
}

/// Which section.
#[derive(Clone, Copy, Debug, PartialEq, Eq, Structural)]
pub enum SectionKind {
    /// What was put in.
    Input,
    /// What came out.
    Output,
    /// What went wrong.
    Error,
}

impl SectionKind {
    /// The section that `name` stands for, if it stands for one.
    pub open spec fn named(name: Seq<char>) -> Option<SectionKind> {
        if name == "input"@ {
            Some(SectionKind::Input)
        } else if name == "output"@ {
            Some(SectionKind::Output)
        } else if name == "error"@ {
            Some(SectionKind::Error)
        } else {
            None
        }
    }

    /// The section that `name` stands for, if it stands for one.
    pub fn from_name(name: &str) -> (res: Option<Self>)
        ensures
            res == Self::named(name@),
    {
        if same_text(name, "input") {
            Some(SectionKind::Input)
        } else if same_text(name, "output") {
            Some(SectionKind::Output)
        } else if same_text(name, "error") {
            Some(SectionKind::Error)
        } else {
            None
        }
    }
}

/// What an [`OutputArgs`] holds.
pub ghost struct OutputArgsView {
    /// The sections in the order in which they are shown.
    pub order: Seq<SectionKind>,
    /// Whether what was put in is shown too.
    pub show_input: bool,
    /// The section for what was put in.
    pub input: SectionView,
    /// The section for what came out.
    pub output: SectionView,
    /// The section for what went wrong.
    pub error: SectionView,
    /// The style in which the sections are shown.
    pub style: OutputFormat,
}

impl OutputArgsView {
    /// The section of one kind.
    pub open spec fn section(self, kind: SectionKind) -> SectionView {
        match kind {
            SectionKind::Input => self.input,
            SectionKind::Output => self.output,
            SectionKind::Error => self.error,
        }
    }

    /// The first `n` sections of the order as comments of a language.
    pub open spec fn comment_lines_of(self, n: int, comment: Seq<char>) -> Seq<Seq<char>>
        decreases n,
    {
        if n <= 0 {
            Seq::empty()
        } else {
            self.comment_lines_of(n - 1, comment) + self.section(self.order[n - 1]).comment_lines(
                comment,
            )
        }
    }

    /// All sections, in their order, as comments of a language.
    pub open spec fn comment_lines(self, comment: Seq<char>) -> Seq<Seq<char>> {
        self.comment_lines_of(self.order.len() as int, comment)
    }

    /// The sections with the texts of a run.
    pub open spec fn with_values(
        self,
        input: Seq<char>,
        output: Seq<char>,
        error: Seq<char>,
    ) -> OutputArgsView {
        OutputArgsView {
            input: SectionView { value: input, ..self.input },
            output: SectionView { value: output, ..self.output },
            error: SectionView { value: error, ..self.error },
            ..self
        }
    }

    /// What is shown where nothing is configured: input, output and error in
    /// this order, under their usual headings.
    pub open spec fn usual() -> OutputArgsView {
        OutputArgsView {
            order: seq![SectionKind::Input, SectionKind::Output, SectionKind::Error],
            show_input: false,
            input: SectionView::headed("Input"@, "blue"@),
            output: SectionView::headed("Output"@, "green"@),
            error: SectionView::headed("Error"@, "red"@),
            style: OutputFormat::Pretty,
        }
    }
}

/// How a result is shown.
pub struct OutputArgs {
    order: Vec<SectionKind>,
    show_input: bool,
    input: Section,
    output: Section,
    error: Section,
    style: OutputFormat,
}

impl View for OutputArgs {
    type V = OutputArgsView;

    closed spec fn view(&self) -> OutputArgsView {
        OutputArgsView {
            order: self.order@,
            show_input: self.show_input,
            input: self.input@,
            output: self.output@,
            error: self.error@,
            style: self.style,
        }
    }
}

impl Default for OutputArgs {
    /// What is shown where nothing is configured.
    fn default() -> (res: Self)
        ensures
            res@ == OutputArgsView::usual(),
    {
        let mut order: Vec<SectionKind> = Vec::new();
        order.push(SectionKind::Input);
        order.push(SectionKind::Output);
        order.push(SectionKind::Error);
        proof {
            assert(order@ =~= seq![SectionKind::Input, SectionKind::Output, SectionKind::Error]);
        }
        Self {
            order,
            show_input: false,
            input: default_input(),
            output: default_output(),
            error: default_error(),
            style: OutputFormat::default(),
        }
    }
}

impl OutputArgs {
    /// What is shown, as configured, in the usual style.
    pub fn new(
        order: Vec<SectionKind>,
        show_input: bool,
        input: Section,
        output: Section,
        error: Section,
    ) -> (res: Self)
        ensures
            res@ == (OutputArgsView {
                order: order@,
                show_input,
                input: input@,
                output: output@,
                error: error@,
                style: OutputFormat::Pretty,
            }),
    {
        Self { order, show_input, input, output, error, style: OutputFormat::default() }
    }

    /// Whether what was put in is shown too.
    pub fn get_show_input(&self) -> (res: bool)
        ensures
            res == self@.show_input,
    {
        self.show_input
    }

    /// The sections in the order in which they are shown.
    pub fn get_order(&self) -> (res: Vec<SectionKind>)
        ensures
            res@ == self@.order,
    {
        let mut out: Vec<SectionKind> = Vec::new();
        let mut i: usize = 0;
        while i < self.order.len()
            invariant
                i <= self.order.len(),
                out@ == self.order@.take(i as int),
            decreases self.order.len() - i,
        {
            out.push(self.order[i]);
            proof {
                assert(self.order@.take(i + 1) =~= self.order@.take(i as int).push(
                    self.order@[i as int],
                ));
            }
            i = i + 1;
        }
        proof {
            assert(self.order@.take(self.order.len() as int) =~= self.order@);
        }
        out
    }

    /// The section of one kind.
    pub fn get_section(&self, kind: SectionKind) -> (res: &Section)
        ensures
            res@ == self@.section(kind),
    {
        match kind {
            SectionKind::Input => &self.input,
            SectionKind::Output => &self.output,
            SectionKind::Error => &self.error,
        }
    }

    /// All sections, in their order, as comments of a language, one string to
    /// a line.
    pub fn write_as_comment(&self, comment_string: &str) -> (res: Vec<String>)
        ensures
            texts(res@) == self@.comment_lines(comment_string@),
    {
        let mut out: Vec<String> = Vec::new();
        let mut i: usize = 0;
        proof {
            assert(texts(out@) =~= self@.comment_lines_of(0, comment_string@));
        }
        while i < self.order.len()
            invariant
                i <= self.order.len(),
                texts(out@) == self@.comment_lines_of(i as int, comment_string@),
            decreases self.order.len() - i,
        {
            let section = self.get_section(self.order[i]);
            let mut block = section.write_as_comment(comment_string);
            let ghost before = out@;
            let ghost added = block@;
            out.append(&mut block);
            proof {
                assert(texts(out@) =~= texts(before) + texts(added));
            }
            i = i + 1;
        }
        out
    }

    /// The section for what was put in, to be changed in place.
    pub fn get_input(&mut self) -> (res: &mut Section)
        ensures
            res@ == old(self)@.input,
            final(self)@ == (OutputArgsView { input: final(res)@, ..old(self)@ }),
    {
        &mut self.input
    }

    /// Puts the texts of a run under their headings.
    pub fn set_reserved_section_values(&mut self, input: String, output: String, error: String)
        ensures
            final(self)@ == old(self)@.with_values(input@, output@, error@),
    {
        self.input.resolve_value(input);
        self.output.resolve_value(output);
        self.error.resolve_value(error);
    }
}

} // verus!
