//! The run of one snippet, as a machine that is told what happened and answers
//! with what to do next. It spawns nothing itself.

use crate::output::{Output, OutputType, OutputView};
use crate::text::texts;
use crate::user_config::{Config, LanguageConfig, LanguageConfigView, Template};
use crate::utils::decoded;
use crate::variable_parser::{
    placeholders, rewritten, rewritten_arg, tracked_over, VariableParser,
};
use vstd::prelude::*;
use vstd::string::*;

verus! {

/// How the source reaches the toolchain.
#[derive(Clone, Copy, Debug, PartialEq, Eq, Structural)]
pub enum ExecutionMode {
    /// The source is piped into the first step, and there is no second step.
    RedirectMode,
    /// The source is written to a file that the first step is pointed at.
    FileMode,
}

/// What follows the first step in file mode.
#[derive(Clone, Copy, Debug, PartialEq, Eq, Structural)]
pub enum AfterCompile {
    /// The first step's output is the result.
    ShortCircuit,
    /// The second step runs, and its output is the result.
    RunArtifact,
}

/// Where a run stands.
#[derive(Clone, Copy, Debug, PartialEq, Eq, Structural)]
pub enum Stage {
    /// Nothing has happened yet.
    Start,
    /// The only step is running, with the source on its standard input.
    RedirectMode,
    /// The source is being written to its file.
    FileMode,
    /// The first step is running.
    Compiling,
    /// The second step is running.
    RunArtifact,
    /// The run is over.
    Done,
}

/// What the machine is told.
pub enum Event {
    /// The source was written; these are the paths of the source file and of
    /// the artifact beside it.
    SourceWritten { input_path: String, output_path: String },
    /// The process that was asked for has exited. `code` is absent where the
    /// system reported none.
    Exited { stdout: Vec<u8>, stderr: Vec<u8>, code: Option<i32> },
    /// What was asked for could not be done.
    Failed { message: String },
}

/// What the machine asks for.
pub enum Action {
    /// Make a scratch directory, write `contents` to the file `input_name` in
    /// it, and report the paths of that file and of `output_name` beside it.
    WriteSource { input_name: String, output_name: String, contents: String },
    /// Run `program` with `args`, with `stdin` on its standard input if there
    /// is one, and report how it exited.
    Spawn { program: String, args: Vec<String>, stdin: Option<String> },
    /// The run is over, with this result.
    Finish { output: Output },
    /// The run is over, without a result.
    Fail { message: String },
}

/// What an [`Action`] holds.
pub ghost enum ActionView {
    WriteSource { input_name: Seq<char>, output_name: Seq<char>, contents: Seq<char> },
    Spawn { program: Seq<char>, args: Seq<Seq<char>>, stdin: Option<Seq<char>> },
    Finish { output: OutputView },
    Fail { message: Seq<char> },
}

impl View for Action {
    type V = ActionView;

    open spec fn view(&self) -> ActionView {
        match self {
            Action::WriteSource { input_name, output_name, contents } => ActionView::WriteSource {
                input_name: input_name@,
                output_name: output_name@,
                contents: contents@,
            },
            Action::Spawn { program, args, stdin } => ActionView::Spawn {
                program: program@,
                args: texts(args@),
                stdin: match stdin {
                    Some(text) => Some(text@),
                    None => None,
                },
            },
            Action::Finish { output } => ActionView::Finish { output: output@ },
            Action::Fail { message } => ActionView::Fail { message: message@ },
        }
    }
}

/// The mode is a property of the language alone.
pub open spec fn mode_of(redir_input: bool) -> ExecutionMode {
    if redir_input {
        ExecutionMode::RedirectMode
    } else {
        ExecutionMode::FileMode
    }
}

/// The first step's output is the result when the step failed, when it was
/// handed the source itself, or when the user ruled a second step out.
pub open spec fn branch_of(exit_ok: bool, consumed_input: bool, no_run: bool) -> AfterCompile {
    if !exit_ok || consumed_input || no_run {
        AfterCompile::ShortCircuit
    } else {
        AfterCompile::RunArtifact
    }
}

/// An argument with the three reserved tokens filled in: the path of the source
/// file, the path of the artifact, and the source itself. Only a whole argument
/// is a token.
pub open spec fn fill(
    arg: Seq<char>,
    input_path: Seq<char>,
    output_path: Seq<char>,
    source: Seq<char>,
) -> Seq<char> {
    if arg == "{{IN}}"@ {
        input_path
    } else if arg == "{{OUT}}"@ {
        output_path
    } else if arg == "{{INPUT}}"@ {
        source
    } else {
        arg
    }
}

/// An argument list with the reserved tokens filled in.
pub open spec fn filled(
    args: Seq<Seq<char>>,
    input_path: Seq<char>,
    output_path: Seq<char>,
    source: Seq<char>,
) -> Seq<Seq<char>> {
    Seq::new(args.len(), |i: int| fill(args[i], input_path, output_path, source))
}

/// The extension of the source file: the configured one, or the language
/// identifier where none is configured.
pub open spec fn file_extension(conf: LanguageConfigView, lang: Seq<char>) -> Seq<char> {
    match conf.extension {
        Some(extension) => extension,
        None => lang,
    }
}

/// The name of the source file.
pub open spec fn source_name(conf: LanguageConfigView, lang: Seq<char>) -> Seq<char> {
    "tmp."@ + file_extension(conf, lang)
}

/// The result that a process leaves, in the plain rendering.
pub open spec fn result_of(
    stdout: Seq<u8>,
    stderr: Seq<u8>,
    code: Option<i32>,
    output_file: Seq<char>,
) -> OutputView {
    OutputView {
        format: OutputType::Raw,
        stdout: decoded(stdout),
        stderr: decoded(stderr),
        code: match code {
            Some(n) => n,
            None => 0i32,
        },
        output_file,
    }
}

/// What a [`QuickMDRunner`] holds.
pub ghost struct RunnerView {
    /// The language identifier.
    pub lang: Seq<char>,
    /// The language's recipe.
    pub conf: LanguageConfigView,
    /// The text of the template, which is the source that is run.
    pub source: Seq<char>,
    /// Where the run stands.
    pub stage: Stage,
    /// The path of the source file, once it is written.
    pub input_file: Seq<char>,
    /// The path of the artifact, once it is known.
    pub output_file: Seq<char>,
    /// Whether the first step was handed the source itself.
    pub consumed_input: bool,
}

impl RunnerView {
    /// The run, over.
    pub open spec fn done(self) -> RunnerView {
        RunnerView { stage: Stage::Done, ..self }
    }

    /// The second step: the configured command with the reserved tokens filled
    /// in, or the artifact itself without arguments.
    pub open spec fn run_step(self) -> ActionView {
        match self.conf.run_command_for(self.output_file) {
            Some((program, args)) => ActionView::Spawn {
                program,
                args: filled(args, self.input_file, self.output_file, self.source),
                stdin: None,
            },
            None => ActionView::Spawn {
                program: self.output_file,
                args: Seq::empty(),
                stdin: None,
            },
        }
    }

    /// The first move. In redirect mode the first step is run as configured,
    /// with the source on its standard input; in file mode the source is to be
    /// written first.
    pub open spec fn begin(self) -> (RunnerView, ActionView) {
        if self.stage != Stage::Start {
            (self.done(), ActionView::Fail { message: "the run has already begun"@ })
        } else if mode_of(self.conf.redir_input) == ExecutionMode::RedirectMode {
            (
                RunnerView { stage: Stage::RedirectMode, output_file: "stdin"@, ..self },
                ActionView::Spawn {
                    program: self.conf.compile_command[0],
                    args: self.conf.compile_command.skip(1),
                    stdin: Some(self.source),
                },
            )
        } else {
            (
                RunnerView { stage: Stage::FileMode, ..self },
                ActionView::WriteSource {
                    input_name: source_name(self.conf, self.lang),
                    output_name: "out"@,
                    contents: self.source,
                },
            )
        }
    }

    /// The move that answers `event`.
    pub open spec fn after(self, event: Event) -> (RunnerView, ActionView) {
        match (self.stage, event) {
            (Stage::FileMode, Event::SourceWritten { input_path, output_path }) => {
                let args = self.conf.compile_command.skip(1);
                (
                    RunnerView {
                        stage: Stage::Compiling,
                        input_file: input_path@,
                        output_file: output_path@,
                        consumed_input: args.contains("{{INPUT}}"@),
                        ..self
                    },
                    ActionView::Spawn {
                        program: self.conf.compile_command[0],
                        args: filled(args, input_path@, output_path@, self.source),
                        stdin: None,
                    },
                )
            },
            (Stage::Compiling, Event::Exited { stdout, stderr, code }) => {
                match branch_of(
                    code == Some(0i32),
                    self.consumed_input,
                    self.conf.explicit_no_run(),
                ) {
                    AfterCompile::ShortCircuit => (
                        self.done(),
                        ActionView::Finish {
                            output: result_of(stdout@, stderr@, code, self.output_file),
                        },
                    ),
                    AfterCompile::RunArtifact => (
                        RunnerView { stage: Stage::RunArtifact, ..self },
                        self.run_step(),
                    ),
                }
            },
            (Stage::RedirectMode, Event::Exited { stdout, stderr, code }) => (
                self.done(),
                ActionView::Finish { output: result_of(stdout@, stderr@, code, self.output_file) },
            ),
            (Stage::RunArtifact, Event::Exited { stdout, stderr, code }) => (
                self.done(),
                ActionView::Finish { output: result_of(stdout@, stderr@, code, self.output_file) },
            ),
            (Stage::Done, _) => (self, ActionView::Fail { message: "the run is over"@ }),
            (_, Event::Failed { message }) => (self.done(), ActionView::Fail { message: message@ }),
            _ => (self.done(), ActionView::Fail { message: "this was not asked for"@ }),
        }
    }
}

/// An upper bound on the moves that a run can still make.
pub open spec fn moves_left(stage: Stage) -> nat {
    match stage {
        Stage::Start => 4,
        Stage::FileMode => 3,
        Stage::Compiling => 2,
        Stage::RedirectMode => 1,
        Stage::RunArtifact => 1,
        Stage::Done => 0,
    }
}

/// Every run ends: each move of a run that is not over brings it closer to its
/// end, so that a run makes four moves at most. The move that ends it is the
/// one that answers with a result or a failure, and no other does. The
/// language, its recipe and the source stay what they were throughout.
pub proof fn lemma_every_run_ends(run: RunnerView, event: Event)
    ensures
        run.stage == Stage::Start ==> moves_left(run.begin().0.stage) < moves_left(run.stage),
        run.stage != Stage::Done ==> moves_left(run.after(event).0.stage) < moves_left(run.stage),
        run.stage != Stage::Done ==> (run.after(event).0.stage == Stage::Done <==> (run.after(
            event,
        ).1 is Finish || run.after(event).1 is Fail)),
        run.after(event).0.lang == run.lang && run.after(event).0.conf == run.conf && run.after(
            event,
        ).0.source == run.source,
        run.begin().0.lang == run.lang && run.begin().0.conf == run.conf && run.begin().0.source
            == run.source,
{
}

/// In file mode a second step is run only after a first step that succeeded,
/// that was not handed the source itself, and that the user did not rule a
/// second step out for; in every other case the first step's output is the
/// result, with the artifact's path beside it.
pub proof fn lemma_short_circuit(run: RunnerView, stdout: Vec<u8>, stderr: Vec<u8>, code: Option<i32>)
    requires
        run.stage == Stage::Compiling,
    ensures
        ({
            let event = Event::Exited { stdout, stderr, code };
            if code == Some(0i32) && !run.consumed_input && !run.conf.explicit_no_run() {
                run.after(event) == (
                    RunnerView { stage: Stage::RunArtifact, ..run },
                    run.run_step(),
                )
            } else {
                run.after(event) == (
                    run.done(),
                    ActionView::Finish {
                        output: result_of(stdout@, stderr@, code, run.output_file),
                    },
                )
            }
        }),
{
}

/// The mode in which a language runs.
pub fn execution_mode(redir_input: bool) -> (res: ExecutionMode)
    ensures
        res == mode_of(redir_input),
{
    if redir_input {
        ExecutionMode::RedirectMode
    } else {
        ExecutionMode::FileMode
    }
}

/// What follows the first step.
pub fn after_compile(exit_ok: bool, consumed_input: bool, no_run: bool) -> (res: AfterCompile)
    ensures
        res == branch_of(exit_ok, consumed_input, no_run),
{
    if !exit_ok || consumed_input || no_run {
        AfterCompile::ShortCircuit
    } else {
        AfterCompile::RunArtifact
    }
}

/// The set of the three reserved tokens.
fn reserved<'a>(input_path: &'a str, output_path: &'a str, source: &'a str) -> (res:
    VariableParser<&'a str>)
    ensures
        forall|args: Seq<Seq<char>>| #[trigger]
            rewritten(res@, args) == filled(args, input_path@, output_path@, source@),
        forall|args: Seq<Seq<char>>|
            (#[trigger] tracked_over(res@, args)).contains_key("{{INPUT}}"@) && tracked_over(
                res@,
                args,
            )["{{INPUT}}"@].1 == args.contains("{{INPUT}}"@),
{
    let mut entries: Vec<(&str, &str)> = Vec::new();
    entries.push(("{{IN}}", input_path));
    entries.push(("{{OUT}}", output_path));
    entries.push(("{{INPUT}}", source));
    let parser = VariableParser::new(entries);
    proof {
        let e = entries@;
        reveal_with_fuel(placeholders, 4);
        assert(e.drop_last() =~= seq![e[0], e[1]]);
        assert(e.drop_last().drop_last() =~= seq![e[0]]);
        assert(e.drop_last().drop_last().drop_last() =~= Seq::<(&str, &str)>::empty());
        reveal_strlit("{{IN}}");
        reveal_strlit("{{OUT}}");
        reveal_strlit("{{INPUT}}");
        assert(parser@ =~= Map::<Seq<char>, (&str, bool)>::empty().insert(
            "{{IN}}"@,
            (input_path, false),
        ).insert("{{OUT}}"@, (output_path, false)).insert("{{INPUT}}"@, (source, false)));
        assert forall|args: Seq<Seq<char>>| #[trigger]
            rewritten(parser@, args) == filled(args, input_path@, output_path@, source@) by {
            assert forall|i: int| 0 <= i < args.len() implies rewritten(parser@, args)[i] == filled(
                args,
                input_path@,
                output_path@,
                source@,
            )[i] by {
                let arg = args[i];
                assert(rewritten(parser@, args)[i] == rewritten_arg(parser@, arg));
                assert("{{IN}}"@.len() == 6 && "{{OUT}}"@.len() == 7 && "{{INPUT}}"@.len() == 9);
                if arg == "{{IN}}"@ {
                    assert(parser@[arg] == (input_path, false));
                } else if arg == "{{OUT}}"@ {
                    assert(parser@[arg] == (output_path, false));
                } else if arg == "{{INPUT}}"@ {
                    assert(parser@[arg] == (source, false));
                } else {
                    assert(!parser@.contains_key(arg));
                }
            }
            assert(rewritten(parser@, args) =~= filled(args, input_path@, output_path@, source@));
        }
    }
    parser
}

/// The run of one snippet in one language.
pub struct QuickMDRunner<'runner> {
    template: &'runner Template,
    lang_conf: &'runner LanguageConfig,
    config: &'runner Config,
    output_file: String,
    lang: &'runner str,
    input_file: String,
    stage: Stage,
    consumed_input: bool,
}

impl<'runner> View for QuickMDRunner<'runner> {
    type V = RunnerView;

    closed spec fn view(&self) -> RunnerView {
        RunnerView {
            lang: self.lang@,
            conf: self.lang_conf@,
            source: self.template@.text(),
            stage: self.stage,
            input_file: self.input_file@,
            output_file: self.output_file@,
            consumed_input: self.consumed_input,
        }
    }
}

impl<'runner> QuickMDRunner<'runner> {
    /// A run that has not begun.
    pub fn new(
        lang: &'runner str,
        template: &'runner Template,
        lang_conf: &'runner LanguageConfig,
        config: &'runner Config,
    ) -> (res: Self)
        ensures
            res@ == (RunnerView {
                lang: lang@,
                conf: lang_conf@,
                source: template@.text(),
                stage: Stage::Start,
                input_file: Seq::empty(),
                output_file: Seq::empty(),
                consumed_input: false,
            }),
    {
        Self {
            lang,
            template,
            lang_conf,
            config,
            output_file: String::new(),
            input_file: String::new(),
            stage: Stage::Start,
            consumed_input: false,
        }
    }

    /// Where the run stands.
    pub fn get_stage(&self) -> (res: Stage)
        ensures
            res == self@.stage,
    {
        self.stage
    }

    /// The extension of the source file: the configured one, or the language
    /// identifier where none is configured.
    fn get_file_ext(&self) -> (res: String)
        ensures
            res@ == file_extension(self@.conf, self@.lang),
    {
        match self.lang_conf.get_extension() {
            Some(extension) => extension,
            None => String::from_str(self.lang),
        }
    }

    /// Ends the run without a result.
    fn fail(&mut self, message: String) -> (action: Action)
        ensures
            final(self)@ == old(self)@.done(),
            action@ == (ActionView::Fail { message: message@ }),
    {
        self.stage = Stage::Done;
        Action::Fail { message }
    }

    /// Ends the run with what a process left.
    fn finish(&mut self, stdout: &Vec<u8>, stderr: &Vec<u8>, code: Option<i32>) -> (action: Action)
        ensures
            final(self)@ == old(self)@.done(),
            action@ == (ActionView::Finish {
                output: result_of(stdout@, stderr@, code, old(self)@.output_file),
            }),
    {
        self.stage = Stage::Done;
        let mut output = Output::from_u8(OutputType::Raw, stdout, stderr, code);
        output.set_output_file(self.output_file.clone());
        Action::Finish { output }
    }

    /// The second step.
    fn run_explicit(&self) -> (action: Action)
        ensures
            action@ == self@.run_step(),
    {
        match self.lang_conf.get_run_command(self.output_file.clone()) {
            Some((program, mut args)) => {
                let source = self.template.get_resolved_template();
                let parser = reserved(
                    self.input_file.as_str(),
                    self.output_file.as_str(),
                    source.as_str(),
                );
                parser.parse_string_vec(&mut args);
                Action::Spawn { program, args, stdin: None }
            },
            None => {
                let args: Vec<String> = Vec::new();
                proof {
                    assert(texts(args@) =~= Seq::<Seq<char>>::empty());
                }
                Action::Spawn { program: self.output_file.clone(), args, stdin: None }
            },
        }
    }

    /// Begins the run, and says what to do first.
    pub fn start(&mut self) -> (action: Action)
        ensures
            (final(self)@, action@) == old(self)@.begin(),
    {
        if self.stage != Stage::Start {
            return self.fail(String::from_str("the run has already begun"));
        }
        let source = self.template.get_resolved_template();
        match execution_mode(self.lang_conf.get_redir_input()) {
            ExecutionMode::RedirectMode => {
                self.stage = Stage::RedirectMode;
                self.output_file = String::from_str("stdin");
                Action::Spawn {
                    program: self.lang_conf.get_command_name(),
                    args: self.lang_conf.get_command_args(),
                    stdin: Some(source),
                }
            },
            ExecutionMode::FileMode => {
                self.stage = Stage::FileMode;
                let mut input_name = String::from_str("tmp.");
                input_name.append(self.get_file_ext().as_str());
                Action::WriteSource {
                    input_name,
                    output_name: String::from_str("out"),
                    contents: source,
                }
            },
        }
    }

    /// Takes note of `event`, and says what to do next. After `Finish` or `Fail`
    /// the run is over.
    pub fn advance(&mut self, event: Event) -> (action: Action)
        ensures
            (final(self)@, action@) == old(self)@.after(event),
    {
        if self.stage == Stage::Done {
            return Action::Fail { message: String::from_str("the run is over") };
        }
        match event {
            Event::Failed { message } => self.fail(message),
            Event::SourceWritten { input_path, output_path } => {
                if self.stage != Stage::FileMode {
                    return self.fail(String::from_str("this was not asked for"));
                }
                let source = self.template.get_resolved_template();
                let mut parser = reserved(input_path.as_str(), output_path.as_str(), source.as_str());
                let program = self.lang_conf.get_command_name();
                let mut args = self.lang_conf.get_command_args();
                parser.parse_with_tracker(&mut args);
                let consumed_input = parser.had_used_var("{{INPUT}}");
                self.stage = Stage::Compiling;
                self.consumed_input = consumed_input;
                self.input_file = input_path;
                self.output_file = output_path;
                Action::Spawn { program, args, stdin: None }
            },
            Event::Exited { stdout, stderr, code } => {
                match self.stage {
                    Stage::Compiling => {
                        let exit_ok = match code {
                            Some(n) => n == 0,
                            None => false,
                        };
                        match after_compile(
                            exit_ok,
                            self.consumed_input,
                            self.lang_conf.explicit_no_run(),
                        ) {
                            AfterCompile::ShortCircuit => self.finish(&stdout, &stderr, code),
                            AfterCompile::RunArtifact => {
                                self.stage = Stage::RunArtifact;
                                self.run_explicit()
                            },
                        }
                    },
                    Stage::RedirectMode => self.finish(&stdout, &stderr, code),
                    Stage::RunArtifact => self.finish(&stdout, &stderr, code),
                    _ => self.fail(String::from_str("this was not asked for")),
                }
            },
        }
    }
}

} // verus!
