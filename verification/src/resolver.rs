//! Where the input of a run comes from, and what is shown of its result.

use crate::output::{Output, OutputView};
use crate::outputer::{OutputArgs, OutputArgsView, SectionView};
use crate::text::{lines, split_lines, texts};
use vstd::prelude::*;
use vstd::string::*;

verus! {

/// Where the lines to run come from.
pub enum InputSource {
    /// They were given on the command line.
    Given(Vec<String>),
    /// They are to be read from standard input, which is not a terminal.
    Stdin,
    /// There are none: nothing was given, and standard input is a terminal.
    Missing,
}

/// What an [`InputSource`] holds.
pub ghost enum InputSourceView {
    Given(Seq<Seq<char>>),
    Stdin,
    Missing,
}

impl View for InputSource {
    type V = InputSourceView;

    open spec fn view(&self) -> InputSourceView {
        match self {
            InputSource::Given(lines) => InputSourceView::Given(texts(lines@)),
            InputSource::Stdin => InputSourceView::Stdin,
            InputSource::Missing => InputSourceView::Missing,
        }
    }
}

/// An argument goes before standard input, and a terminal is not read from.
pub open spec fn input_source(input: Option<Seq<char>>, is_interactive: bool) -> InputSourceView {
    match input {
        Some(text) => InputSourceView::Given(split_lines(text)),
        None => if !is_interactive {
            InputSourceView::Stdin
        } else {
            InputSourceView::Missing
        },
    }
}

/// Where the lines to run come from, given the argument and whether standard
/// input is a terminal.
pub fn input(given: &Option<String>, is_interactive: bool) -> (res: InputSource)
    ensures
        res@ == input_source(
            match *given {
                Some(text) => Some(text@),
                None => None,
            },
            is_interactive,
        ),
{
    if let Some(text) = given {
        InputSource::Given(lines(text.as_str()))
    } else if !is_interactive {
        InputSource::Stdin
    } else {
        InputSource::Missing
    }
}

/// What is shown of a run: the configured sections, or the usual ones where
/// none could be had, with the texts of the run; what was put in is shown only
/// on demand.
pub open spec fn shown(
    configured: Option<OutputArgsView>,
    input: Seq<char>,
    output: OutputView,
    show_input: bool,
) -> OutputArgsView {
    let base = match configured {
        Some(args) => args,
        None => OutputArgsView::usual(),
    };
    let filled = base.with_values(input, output.stdout, output.stderr);
    if show_input {
        filled
    } else {
        OutputArgsView { input: SectionView { value: Seq::empty(), ..filled.input }, ..filled }
    }
}

/// What is shown of a run.
pub fn output(configured: Option<OutputArgs>, input: String, result: &Output, show_input: bool) -> (res:
    OutputArgs)
    ensures
        res@ == shown(
            match configured {
                Some(args) => Some(args@),
                None => None,
            },
            input@,
            result@,
            show_input,
        ),
{
    let mut output_config = match configured {
        Some(args) => args,
        None => OutputArgs::default(),
    };
    output_config.set_reserved_section_values(input, result.get_stdout(), result.get_stderr());
    if !show_input {
        output_config.get_input().resolve_value(String::new());
    }
    output_config
}

} // verus!
