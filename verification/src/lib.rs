//! Runs a snippet of source code through a per-language recipe: the snippet is
//! placed into the language's template, the recipe's command line is filled in,
//! and what the toolchain printed is kept as a renderable value.
//!
//! Every function here is checked against its contract. Spawning processes and
//! touching the file system is left to the caller, who drives a
//! [`runner::QuickMDRunner`].

pub mod cli;
pub mod output;
pub mod outputer;
pub mod resolver;
pub mod runner;
pub mod text;
pub mod user_config;
pub mod utils;
pub mod variable_parser;

use crate::text::{replace_all, replace_str, Render};
use crate::user_config::{Config, LanguageConfig, Template, TemplateView};
use vstd::prelude::*;
use vstd::string::*;

verus! {

/// What is said of a language that is not configured.
pub open spec fn unknown_language(lang: Seq<char>) -> Seq<char> {
    "No config for `"@ + lang + "`"@
}

/// What is said of a run that could not be carried out.
pub open spec fn run_failure(cause: Seq<char>) -> Seq<char> {
    "There was an error running!:\n"@ + cause
}

/// The entry point for most integrations: a configuration, and what can be
/// asked of it.
pub struct QuickerMD {
    /// The user's configuration.
    config: Config,
}

impl View for QuickerMD {
    type V = Map<Seq<char>, LanguageConfig>;

    closed spec fn view(&self) -> Map<Seq<char>, LanguageConfig> {
        self.config@
    }
}

impl QuickerMD {
    #[verifier::type_invariant]
    spec fn inv(&self) -> bool {
        self.config.wf()
    }

    /// An entry point over `config`.
    pub fn new(config: Config) -> (res: Self)
        requires
            config.wf(),
        ensures
            res@ == config@,
    {
        Self { config }
    }

    /// The configuration.
    pub fn get_config(&self) -> (res: &Config)
        ensures
            res.wf(),
            res@ == self@,
    {
        proof {
            use_type_invariant(self);
        }
        &self.config
    }

    /// The recipe of `lang`, or what is said of a language that has none.
    pub fn get_config_for_lang(&self, lang: &str) -> (res: Result<&LanguageConfig, String>)
        ensures
            res is Ok <==> self@.contains_key(lang@),
            match res {
                Ok(conf) => *conf == self@[lang@],
                Err(message) => message@ == unknown_language(lang@),
            },
    {
        proof {
            use_type_invariant(self);
        }
        if let Some(lang_conf) = self.config.get_lang_conf(lang) {
            return Ok(lang_conf);
        }
        let mut message = String::from_str("No config for `");
        message.append(lang);
        message.append("`");
        Err(message)
    }

    /// The parsed template of `lang`, where the language is configured and has
    /// one. [`QuickerMD::get_template`] is the one to prefer.
    pub fn get_template_for_lang(&self, lang: &str) -> (res: Option<&Template>)
        ensures
            res is Some <==> self@.contains_key(lang@) && self@[lang@]@.raw_template is Some,
            res matches Some(template) ==> template@ == LanguageConfig::parsed_template(
                self@[lang@]@.raw_template,
            ),
    {
        if let Ok(conf) = self.get_config_for_lang(lang) {
            return conf.get_template();
        }
        None
    }

    /// The template of `lang` with `input`, resolved if there is input, where
    /// the language is configured.
    pub fn get_template(&self, lang: &str, input: Vec<String>) -> (res: Option<Template>)
        ensures
            res is Some <==> self@.contains_key(lang@),
            res matches Some(template) ==> template@ == TemplateView::start(
                self@[lang@]@.raw_template,
                crate::text::texts(input@),
            ),
    {
        if let Ok(lang_conf) = self.get_config_for_lang(lang) {
            return Some(Template::new(lang, input, lang_conf));
        }
        None
    }

    /// What is said when a run could not be carried out for `cause`.
    pub fn run_error(cause: &str) -> (res: String)
        ensures
            res@ == run_failure(cause@),
    {
        let mut message = String::from_str("There was an error running!:\n");
        message.append(cause);
        message
    }
}

/// The comment string with `with` in each place for the text.
pub fn format_comment_string<T: Render>(comment_string: &str, with: T) -> (res: String)
    ensures
        res@ == replace_all(comment_string@, "%s"@, with.rendered()),
{
    let text = with.render();
    replace_str(comment_string, "%s", text.as_str())
}

} // verus!
