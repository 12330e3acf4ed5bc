//! What the user configured for each language, and the template of one run.

use crate::text::{
    contains, contains_str, is_whitespace, is_whitespace_char, join, join_strings, lines,
    matches_at, replace_all, replace_str, split_lines, texts, to_chars,
};
use vstd::hash_map::StringHashMap;
use vstd::prelude::*;
use vstd::string::*;

verus! {

/// The text that lines and input give: the lines joined by line feeds, with
/// the input, joined in the same way, in place of every insertion marker.
/// Without lines it is empty.
pub open spec fn resolution(lines: Seq<Seq<char>>, input: Seq<Seq<char>>) -> Seq<char> {
    replace_all(join(lines, "\n"@), "{{INPUT}}"@, join(input, "\n"@))
}

/// What a [`Template`] holds.
pub ghost struct TemplateView {
    /// The template's lines.
    pub lines: Seq<Seq<char>>,
    /// The user's lines.
    pub input: Seq<Seq<char>>,
    /// Whether `cached` is in force.
    pub is_resolved: bool,
    /// The text that was resolved last.
    pub cached: Seq<char>,
}

impl TemplateView {
    /// A template is only ever resolved when it has lines.
    pub open spec fn valid(self) -> bool {
        self.is_resolved ==> self.lines.len() > 0
    }

    /// The text that the template stands for: the cached one once resolved,
    /// else the one that its lines and input give now.
    pub open spec fn text(self) -> Seq<char> {
        if self.is_resolved {
            self.cached
        } else {
            resolution(self.lines, self.input)
        }
    }

    /// The template after it was asked to resolve.
    pub open spec fn resolve(self) -> TemplateView {
        TemplateView {
            lines: self.lines,
            input: self.input,
            is_resolved: self.lines.len() != 0,
            cached: self.text(),
        }
    }

    /// The template with other input. A cached text stays in force.
    pub open spec fn with_input(self, input: Seq<Seq<char>>) -> TemplateView {
        TemplateView { lines: self.lines, input, is_resolved: self.is_resolved, cached: self.cached }
    }

    /// The template that `raw` and `input` start as: resolved at once if there
    /// is input.
    pub open spec fn start(raw: Option<Seq<char>>, input: Seq<Seq<char>>) -> TemplateView {
        let fresh = TemplateView {
            lines: match raw {
                Some(text) => split_lines(text),
                None => Seq::empty(),
            },
            input,
            is_resolved: false,
            cached: Seq::empty(),
        };
        if input.len() != 0 {
            fresh.resolve()
        } else {
            fresh
        }
    }
}

/// A language's template together with the input of one run.
#[derive(Debug)]
pub struct Template {
    /// The parsed lines of the template.
    lines: Vec<String>,
    /// The user input.
    input: Vec<String>,
    /// The resolved template.
    resolved_template: String,
    is_resolved: bool,
}

impl View for Template {
    type V = TemplateView;

    closed spec fn view(&self) -> TemplateView {
        TemplateView {
            lines: texts(self.lines@),
            input: texts(self.input@),
            is_resolved: self.is_resolved,
            cached: self.resolved_template@,
        }
    }
}

/// A copy of `v`.
fn copy_strings(v: &Vec<String>) -> (res: Vec<String>)
    ensures
        texts(res@) == texts(v@),
{
    let mut out: Vec<String> = Vec::new();
    let mut i: usize = 0;
    while i < v.len()
        invariant
            i <= v.len(),
            out.len() == i,
            forall|j: int| 0 <= j < i ==> out@[j]@ == v@[j]@,
        decreases v.len() - i,
    {
        out.push(v[i].clone());
        i = i + 1;
    }
    proof {
        assert(texts(out@) =~= texts(v@));
    }
    out
}

impl Template {
    #[verifier::type_invariant]
    spec fn inv(&self) -> bool {
        self.is_resolved ==> self.lines@.len() > 0
    }

    /// The template of `lang_conf` with `input`, resolved at once if there is
    /// input. Without a configured template there are no lines.
    pub fn new(lang: &str, input: Vec<String>, lang_conf: &LanguageConfig) -> (res: Self)
        ensures
            res@ == TemplateView::start(lang_conf@.raw_template, texts(input@)),
            res@.valid(),
            lang_conf@.raw_template is None ==> res@.lines.len() == 0 && res@.text().len() == 0,
    {
        let raw: Option<&str> = match &lang_conf.raw_template {
            Some(text) => Some(text.as_str()),
            None => None,
        };
        let template = Template::from_raw(raw, input);
        proof {
            lemma_no_template_no_text(texts(input@));
        }
        template
    }

    /// The template of `raw` with `input`, resolved at once if there is input.
    pub fn from_raw(raw: Option<&str>, input: Vec<String>) -> (res: Self)
        ensures
            res@ == TemplateView::start(
                match raw {
                    Some(text) => Some(text@),
                    None => None,
                },
                texts(input@),
            ),
            res@.valid(),
    {
        let input_len = input.len();
        let parsed: Vec<String> = match raw {
            Some(text) => lines(text),
            None => Vec::new(),
        };
        proof {
            if raw is None {
                assert(texts(parsed@) =~= Seq::<Seq<char>>::empty());
            }
        }
        let mut template = Template {
            lines: parsed,
            resolved_template: String::new(),
            is_resolved: false,
            input,
        };
        if input_len != 0 {
            template.resolve();
        }
        template
    }

    /// The user's lines.
    pub fn get_input(&self) -> (res: Vec<String>)
        ensures
            texts(res@) == self@.input,
    {
        copy_strings(&self.input)
    }

    /// The cached text once resolved, else the text that the lines and the
    /// input give now. Nothing is stored.
    fn resolve_no_mut(&self) -> (res: String)
        ensures
            res@ == self@.text(),
    {
        if self.is_resolved {
            return self.resolved_template.clone();
        }
        let resolved_string = join_strings(&self.lines, "\n");
        let input = join_strings(&self.input, "\n");
        replace_str(resolved_string.as_str(), "{{INPUT}}", input.as_str())
    }

    /// Stores the text that the template stands for. From then on that text is
    /// in force, provided the template has lines.
    pub fn resolve(&mut self)
        ensures
            final(self)@ == old(self)@.resolve(),
            final(self)@.valid(),
    {
        let text = self.resolve_no_mut();
        proof {
            use_type_invariant(&*self);
        }
        self.resolved_template = text;
        self.is_resolved = self.lines.len() != 0;
    }

    /// The template's own lines.
    pub fn get_template_lines(&self) -> (res: Vec<String>)
        ensures
            self@.valid(),
            texts(res@) == self@.lines,
    {
        proof {
            use_type_invariant(self);
        }
        copy_strings(&self.lines)
    }

    /// The text that the template stands for.
    pub fn get_resolved_template(&self) -> (res: String)
        ensures
            self@.valid(),
            res@ == self@.text(),
    {
        proof {
            use_type_invariant(self);
        }
        if self.is_resolved {
            return self.resolved_template.clone();
        }
        self.resolve_no_mut()
    }

    /// The same as [`Template::get_resolved_template`].
    pub fn to_string(&self) -> (res: String)
        ensures
            res@ == self@.text(),
    {
        self.get_resolved_template()
    }

    /// Takes the lines of `input` as the user's lines.
    pub fn set_input(&mut self, input: String)
        ensures
            final(self)@ == old(self)@.with_input(split_lines(input@)),
    {
        self.set_input_from_vec(lines(input.as_str()));
    }

    /// Takes `input` as the user's lines.
    pub fn set_input_from_vec(&mut self, input: Vec<String>)
        ensures
            final(self)@ == old(self)@.with_input(texts(input@)),
    {
        proof {
            use_type_invariant(&*self);
        }
        self.input = input;
    }
}

impl Default for Template {
    /// A template without lines and without input.
    fn default() -> (res: Self)
        ensures
            res@ == TemplateView::start(None, Seq::empty()),
    {
        let input: Vec<String> = Vec::new();
        proof {
            assert(texts(input@) =~= Seq::<Seq<char>>::empty());
        }
        Template::from_raw(None, input)
    }
}

/// A language without a configured template has no lines, and its text is
/// empty whatever the input, before and after resolving.
pub proof fn lemma_no_template_no_text(input: Seq<Seq<char>>)
    ensures
        resolution(Seq::empty(), input) == Seq::<char>::empty(),
        TemplateView::start(None, input).lines == Seq::<Seq<char>>::empty(),
        TemplateView::start(None, input).text() == Seq::<char>::empty(),
        TemplateView::start(None, input).resolve().text() == Seq::<char>::empty(),
{
    assert(join(Seq::<Seq<char>>::empty(), "\n"@) =~= Seq::<char>::empty());
}

/// A template that is nothing but the insertion marker stands for the input
/// itself, joined by line feeds.
pub proof fn lemma_marker_alone_is_the_input(input: Seq<Seq<char>>)
    ensures
        resolution(seq!["{{INPUT}}"@], input) == join(input, "\n"@),
{
    reveal_strlit("{{INPUT}}");
    let marker = "{{INPUT}}"@;
    let with = join(input, "\n"@);
    assert(join(seq![marker], "\n"@) == marker);
    assert(marker.subrange(0, marker.len() as int) =~= marker);
    assert(matches_at(marker, marker, 0));
    assert(marker.skip(marker.len() as int) =~= Seq::<char>::empty());
    assert(replace_all(marker, marker, with) == with + replace_all(
        marker.skip(marker.len() as int),
        marker,
        with,
    ));
    assert(with + Seq::<char>::empty() =~= with);
}

/// Resolving is idempotent: a template that was resolved stands for the text it
/// stood for before, resolving it again changes nothing, and once a text is
/// cached it is that text which is read, also after the input has changed.
pub proof fn lemma_resolve_idempotent(t: TemplateView, later: Seq<Seq<char>>)
    requires
        t.valid(),
    ensures
        t.resolve().valid(),
        t.resolve().text() == t.text(),
        t.resolve().resolve() == t.resolve(),
        t.is_resolved ==> t.text() == t.cached && t.with_input(later).text() == t.text(),
{
    if t.lines.len() == 0 {
        lemma_no_template_no_text(t.input);
    }
}

/// The text of a template is a function of its raw template and its input
/// alone: whether it was resolved at once or is resolved on demand, it stands
/// for what its lines and that input give.
pub proof fn lemma_text_of_a_fresh_template(raw: Option<Seq<char>>, input: Seq<Seq<char>>)
    ensures
        TemplateView::start(raw, input).valid(),
        TemplateView::start(raw, input).input == input,
        TemplateView::start(raw, input).text() == resolution(
            TemplateView::start(raw, input).lines,
            input,
        ),
{
    if input.len() != 0 && TemplateView::start(raw, input).lines.len() == 0 {
        lemma_no_template_no_text(input);
    }
}

/// The second step of a recipe, as configured.
#[derive(Debug)]
pub enum RunCommandType {
    /// `true`: run what the first step built, without arguments. `false`: there
    /// is no second step.
    Bool(bool),
    /// The command line of the second step, the executable first.
    StringVec(Vec<String>),
}

/// What a [`RunCommandType`] holds.
pub ghost enum RunCommandView {
    Bool(bool),
    StringVec(Seq<Seq<char>>),
}

impl View for RunCommandType {
    type V = RunCommandView;

    open spec fn view(&self) -> RunCommandView {
        match self {
            RunCommandType::Bool(b) => RunCommandView::Bool(*b),
            RunCommandType::StringVec(command) => RunCommandView::StringVec(texts(command@)),
        }
    }
}

impl Clone for RunCommandType {
    /// A copy that holds the same.
    fn clone(&self) -> (res: Self)
        ensures
            res@ == self@,
    {
        match self {
            RunCommandType::Bool(b) => RunCommandType::Bool(*b),
            RunCommandType::StringVec(command) => RunCommandType::StringVec(copy_strings(command)),
        }
    }
}

/// What a [`LanguageConfig`] holds.
pub ghost struct LanguageConfigView {
    /// The template, as the user wrote it.
    pub raw_template: Option<Seq<char>>,
    /// The prefix for output lines.
    pub comment: Option<Seq<char>>,
    /// The extension of the file that holds the source.
    pub extension: Option<Seq<char>>,
    /// The command line of the first step, the executable first.
    pub compile_command: Seq<Seq<char>>,
    /// The second step.
    pub run_command: Option<RunCommandView>,
    /// Whether the source goes to the first step's standard input.
    pub redir_input: bool,
}

/// A command line names its executable.
pub open spec fn commands_valid(
    compile_command: Seq<Seq<char>>,
    run_command: Option<RunCommandView>,
) -> bool {
    &&& compile_command.len() > 0
    &&& run_command matches Some(RunCommandView::StringVec(command)) ==> command.len() > 0
}

/// The comment string with a place for the text: as configured if it has one,
/// else with one added at its end, after a blank unless it ends in white space.
pub open spec fn comment_format(comment: Seq<char>) -> Seq<char> {
    if contains(comment, "%s"@) {
        comment
    } else if comment.len() > 0 && is_whitespace_char(comment.last()) {
        comment + "%s"@
    } else {
        comment + " %s"@
    }
}

/// A comment string has a place for the text once it was given one, and one
/// that had a place already is left as it was.
pub proof fn lemma_comment_has_a_place(comment: Seq<char>)
    ensures
        contains(comment_format(comment), "%s"@),
        contains(comment, "%s"@) ==> comment_format(comment) == comment,
        comment_format(comment_format(comment)) == comment_format(comment),
{
    reveal_strlit("%s");
    reveal_strlit(" %s");
    let place = "%s"@;
    let n = comment.len() as int;
    if !contains(comment, place) {
        let out = comment_format(comment);
        if comment.len() > 0 && is_whitespace_char(comment.last()) {
            assert(out.subrange(n, n + 2) =~= place);
            assert(matches_at(out, place, n));
        } else {
            assert(out.subrange(n + 1, n + 3) =~= place);
            assert(matches_at(out, place, n + 1));
        }
    }
}

impl LanguageConfigView {
    /// Both command lines name their executable.
    pub open spec fn valid(self) -> bool {
        commands_valid(self.compile_command, self.run_command)
    }

    /// There is no second step, by the user's word.
    pub open spec fn explicit_no_run(self) -> bool {
        self.run_command == Some(RunCommandView::Bool(false))
    }

    /// The second step's executable and arguments, where the user configured
    /// one: `file` itself for `true`, and for a command line its executable with
    /// the first argument after it.
    pub open spec fn run_command_for(self, file: Seq<char>) -> Option<(Seq<char>, Seq<Seq<char>>)> {
        match self.run_command {
            Some(RunCommandView::Bool(true)) => Some((file, Seq::empty())),
            Some(RunCommandView::Bool(false)) => None,
            Some(RunCommandView::StringVec(command)) => Some(
                (
                    command[0],
                    if command.len() > 1 {
                        seq![command[1]]
                    } else {
                        Seq::empty()
                    },
                ),
            ),
            None => None,
        }
    }
}

/// The recipe of one language.
#[derive(Debug)]
pub struct LanguageConfig {
    /// The user's defined template.
    raw_template: Option<String>,
    /// The prefix to output the data with, if the user wishes.
    comment: Option<String>,
    /// The file extension to use when creating a file for this language.
    extension: Option<String>,
    /// The command that is run as the first step.
    compile_command: Vec<String>,
    /// The second step.
    run_command: Option<RunCommandType>,
    /// Whether to redirect input into the first step.
    redir_input: bool,
    /// The parsed template.
    template: Template,
}

/// The view of an optional string.
pub open spec fn opt_text(s: Option<String>) -> Option<Seq<char>> {
    match s {
        Some(text) => Some(text@),
        None => None,
    }
}

/// The view of an optional second step.
pub open spec fn opt_run(run: Option<RunCommandType>) -> Option<RunCommandView> {
    match run {
        Some(command) => Some(command@),
        None => None,
    }
}

impl View for LanguageConfig {
    type V = LanguageConfigView;

    closed spec fn view(&self) -> LanguageConfigView {
        LanguageConfigView {
            raw_template: opt_text(self.raw_template),
            comment: opt_text(self.comment),
            extension: opt_text(self.extension),
            compile_command: texts(self.compile_command@),
            run_command: opt_run(self.run_command),
            redir_input: self.redir_input,
        }
    }
}

/// A copy of an optional string.
fn copy_opt(s: &Option<String>) -> (res: Option<String>)
    ensures
        opt_text(res) == opt_text(*s),
{
    match s {
        Some(text) => Some(text.clone()),
        None => None,
    }
}

impl LanguageConfig {
    #[verifier::type_invariant]
    spec fn inv(&self) -> bool {
        &&& commands_valid(texts(self.compile_command@), opt_run(self.run_command))
        &&& self.template@ == TemplateView::start(opt_text(self.raw_template), Seq::empty())
    }

    /// The template that belongs to a recipe whose raw template is `raw`.
    pub open spec fn parsed_template(raw: Option<Seq<char>>) -> TemplateView {
        TemplateView::start(raw, Seq::empty())
    }

    /// A recipe, unless one of its command lines is empty.
    pub fn new(
        raw_template: Option<String>,
        comment: Option<String>,
        extension: Option<String>,
        compile_command: Vec<String>,
        run_command: Option<RunCommandType>,
        redir_input: bool,
    ) -> (res: Option<Self>)
        ensures
            res is Some <==> commands_valid(texts(compile_command@), opt_run(run_command)),
            res matches Some(conf) ==> conf@ == (LanguageConfigView {
                raw_template: opt_text(raw_template),
                comment: opt_text(comment),
                extension: opt_text(extension),
                compile_command: texts(compile_command@),
                run_command: opt_run(run_command),
                redir_input,
            }),
    {
        if compile_command.len() == 0 {
            return None;
        }
        let run_ok = match &run_command {
            Some(RunCommandType::StringVec(command)) => command.len() > 0,
            _ => true,
        };
        if !run_ok {
            return None;
        }
        let raw: Option<&str> = match &raw_template {
            Some(text) => Some(text.as_str()),
            None => None,
        };
        let no_input: Vec<String> = Vec::new();
        proof {
            assert(texts(no_input@) =~= Seq::<Seq<char>>::empty());
        }
        let template = Template::from_raw(raw, no_input);
        Some(
            LanguageConfig {
                raw_template,
                comment,
                extension,
                compile_command,
                run_command,
                redir_input,
                template,
            },
        )
    }

    /// The executable of the first step.
    pub fn get_command_name(&self) -> (res: String)
        ensures
            self@.valid(),
            res@ == self@.compile_command[0],
    {
        proof {
            use_type_invariant(self);
        }
        self.compile_command[0].clone()
    }

    /// The arguments of the first step.
    pub fn get_command_args(&self) -> (res: Vec<String>)
        ensures
            self@.valid(),
            texts(res@) == self@.compile_command.skip(1),
    {
        proof {
            use_type_invariant(self);
        }
        let mut out: Vec<String> = Vec::new();
        let mut i: usize = 1;
        while i < self.compile_command.len()
            invariant
                1 <= i <= self.compile_command.len(),
                out.len() == i - 1,
                forall|j: int| 0 <= j < out.len() ==> out@[j]@ == self.compile_command@[j + 1]@,
            decreases self.compile_command.len() - i,
        {
            out.push(self.compile_command[i].clone());
            i = i + 1;
        }
        proof {
            assert(texts(out@) =~= texts(self.compile_command@).skip(1));
        }
        out
    }

    /// The second step's executable and arguments, where the user configured
    /// one; `file` is what the first step built.
    pub fn get_run_command(&self, file: String) -> (res: Option<(String, Vec<String>)>)
        ensures
            self@.valid(),
            match res {
                Some((exe, args)) => self@.run_command_for(file@) == Some((exe@, texts(args@))),
                None => self@.run_command_for(file@) is None,
            },
    {
        proof {
            use_type_invariant(self);
        }
        match &self.run_command {
            Some(RunCommandType::Bool(b)) => {
                if *b {
                    let args: Vec<String> = Vec::new();
                    proof {
                        assert(texts(args@) =~= Seq::<Seq<char>>::empty());
                    }
                    Some((file, args))
                } else {
                    None
                }
            },
            Some(RunCommandType::StringVec(command)) => {
                let mut args: Vec<String> = Vec::new();
                if command.len() > 1 {
                    args.push(command[1].clone());
                }
                proof {
                    if command.len() > 1 {
                        assert(texts(args@) =~= seq![texts(command@)[1]]);
                    } else {
                        assert(texts(args@) =~= Seq::<Seq<char>>::empty());
                    }
                }
                Some((command[0].clone(), args))
            },
            None => None,
        }
    }

    /// The comment string, as configured.
    pub fn get_raw_comment_string(&self) -> (res: Option<String>)
        ensures
            opt_text(res) == self@.comment,
    {
        copy_opt(&self.comment)
    }

    /// Sets the comment string.
    pub fn set_raw_comment_string(&mut self, comment: String)
        ensures
            final(self)@ == (LanguageConfigView { comment: Some(comment@), ..old(self)@ }),
    {
        proof {
            use_type_invariant(&*self);
        }
        self.comment = Some(comment);
    }

    /// The comment string with a place for the text.
    pub fn get_comment_string(&self) -> (res: Option<String>)
        ensures
            opt_text(res) == match self@.comment {
                Some(comment) => Some(comment_format(comment)),
                None => None,
            },
    {
        match &self.comment {
            Some(comment) => {
                if contains_str(comment.as_str(), "%s") {
                    return Some(comment.clone());
                }
                let chars = to_chars(comment.as_str());
                let mut out = comment.clone();
                if chars.len() > 0 && is_whitespace(chars[chars.len() - 1]) {
                    out.append("%s");
                } else {
                    out.append(" %s");
                }
                Some(out)
            },
            None => None,
        }
    }

    /// The comment string with `with` in each place for the text.
    pub fn resolve_comment_string(&self, with: &str) -> (res: Option<String>)
        ensures
            opt_text(res) == match self@.comment {
                Some(comment) => Some(replace_all(comment, "%s"@, with@)),
                None => None,
            },
    {
        match &self.comment {
            Some(comment) => Some(replace_str(comment.as_str(), "%s", with)),
            None => None,
        }
    }

    /// Whether the source goes to the first step's standard input.
    pub fn get_redir_input(&self) -> (res: bool)
        ensures
            res == self@.redir_input,
    {
        self.redir_input
    }

    /// The extension of the file that holds the source.
    pub fn get_extension(&self) -> (res: Option<String>)
        ensures
            opt_text(res) == self@.extension,
    {
        copy_opt(&self.extension)
    }

    /// The template, as the user wrote it.
    pub fn get_raw_template(&self) -> (res: Option<String>)
        ensures
            opt_text(res) == self@.raw_template,
    {
        copy_opt(&self.raw_template)
    }

    /// The parsed template, where the user configured one. It has no input.
    pub fn get_template(&self) -> (res: Option<&Template>)
        ensures
            res is Some <==> self@.raw_template is Some,
            res matches Some(template) ==> template@ == Self::parsed_template(self@.raw_template),
    {
        proof {
            use_type_invariant(self);
        }
        if let Some(_) = self.raw_template {
            return Some(&self.template);
        }
        None
    }

    /// Whether the user ruled the second step out.
    pub fn explicit_no_run(&self) -> (res: bool)
        ensures
            res == self@.explicit_no_run(),
    {
        match &self.run_command {
            Some(command_type) => match command_type {
                RunCommandType::Bool(val) => !*val,
                _ => false,
            },
            None => false,
        }
    }
}

/// The recipes of all configured languages, by language identifier.
pub struct Config {
    /// Where in `confs` the recipe of each language stands.
    index: StringHashMap<usize>,
    confs: Vec<LanguageConfig>,
}

impl View for Config {
    type V = Map<Seq<char>, LanguageConfig>;

    closed spec fn view(&self) -> Map<Seq<char>, LanguageConfig> {
        Map::new(
            |lang: Seq<char>| self.index@.contains_key(lang),
            |lang: Seq<char>| self.confs@[self.index@[lang] as int],
        )
    }
}

impl Config {
    /// Every language has a place of its own among the recipes. Whatever this
    /// module hands out is well formed.
    pub closed spec fn wf(&self) -> bool {
        &&& forall|lang: Seq<char>| #[trigger]
            self.index@.contains_key(lang) ==> self.index@[lang] < self.confs@.len()
        &&& forall|a: Seq<char>, b: Seq<char>|
            self.index@.contains_key(a) && self.index@.contains_key(b) && self.index@[a]
                == self.index@[b] ==> a == b
    }

    /// A configuration without languages.
    pub fn new() -> (res: Self)
        ensures
            res.wf(),
            res@ == Map::<Seq<char>, LanguageConfig>::empty(),
    {
        let config = Config { index: StringHashMap::new(), confs: Vec::new() };
        proof {
            assert(config@ =~= Map::<Seq<char>, LanguageConfig>::empty());
        }
        config
    }

    /// Sets the recipe of `lang`, in place of an earlier one if there is one.
    pub fn insert(&mut self, lang: String, conf: LanguageConfig)
        requires
            old(self).wf(),
        ensures
            final(self).wf(),
            final(self)@ == old(self)@.insert(lang@, conf),
    {
        let found: Option<usize> = match self.index.get(lang.as_str()) {
            Some(at) => Some(*at),
            None => None,
        };
        match found {
            Some(at) => {
                self.confs.set(at, conf);
            },
            None => {
                let at = self.confs.len();
                self.confs.push(conf);
                self.index.insert(lang, at);
            },
        }
        proof {
            assert(self@ =~= old(self)@.insert(lang@, conf));
        }
    }

    /// The recipe of `lang`, if it is configured.
    pub fn get_lang_conf(&self, lang: &str) -> (res: Option<&LanguageConfig>)
        requires
            self.wf(),
        ensures
            res is Some <==> self@.contains_key(lang@),
            res matches Some(conf) ==> *conf == self@[lang@],
    {
        match self.index.get(lang) {
            Some(at) => Some(&self.confs[*at]),
            None => None,
        }
    }

    /// The recipe of `lang`, to be changed in place, if it is configured.
    pub fn get_mut_lang_conf(&mut self, lang: &str) -> (res: Option<&mut LanguageConfig>)
        requires
            old(self).wf(),
        ensures
            final(self).wf(),
            res is Some <==> old(self)@.contains_key(lang@),
            match res {
                Some(conf) => *conf == old(self)@[lang@] && final(self)@ == old(self)@.insert(
                    lang@,
                    *final(conf),
                ),
                None => final(self)@ == old(self)@,
            },
    {
        let found: Option<usize> = match self.index.get(lang) {
            Some(at) => Some(*at),
            None => None,
        };
        match found {
            Some(at) => Some(&mut self.confs[at]),
            None => None,
        }
    }
}

} // verus!
