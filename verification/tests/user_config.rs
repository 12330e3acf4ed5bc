use quickermd::user_config::{Config, LanguageConfig, RunCommandType, Template};

const C_TEMPLATE: &str = r#"
#include <stdio.h>
#include <stdlib.h>
#include <string.h>

int main() {
  {{INPUT}}
}
"#;

fn strings(parts: &[&str]) -> Vec<String> {
    parts.iter().map(|s| s.to_string()).collect()
}

fn language(template: Option<&str>, command: &[&str], run: Option<RunCommandType>) -> LanguageConfig {
    LanguageConfig::new(
        template.map(|s| s.to_string()),
        None,
        None,
        strings(command),
        run,
        false,
    )
    .unwrap()
}

fn get_exmaple_config() -> Config {
    let mut config = Config::new();
    config.insert(
        "c".to_string(),
        language(Some(C_TEMPLATE), &["gcc", "{{IN}}", "-o", "{{OUT}}"], None),
    );
    config.insert(
        "js".to_string(),
        language(Some("{{INPUT}}"), &["node", "{{IN}}"], Some(RunCommandType::Bool(false))),
    );
    config.insert(
        "py".to_string(),
        language(Some("{{INPUT}}"), &["python3", "{{IN}}"], Some(RunCommandType::Bool(false))),
    );
    config
}

#[test]
fn it_gets_an_existing_language() {
    let config = get_exmaple_config();

    _ = config.get_lang_conf("c").unwrap();
}

#[test]
#[should_panic]
fn it_panics_on_non_existing_language() {
    let config = get_exmaple_config();

    config.get_lang_conf("NON EXISTING LANGUAGE").unwrap();
}

#[test]
fn it_correctly_resolves_template() {
    let config = get_exmaple_config();
    let c_conf = config.get_lang_conf("c").unwrap();

    let c_raw_template = c_conf.get_raw_template().unwrap();

    assert_eq!(
        r#"
#include <stdio.h>
#include <stdlib.h>
#include <string.h>

int main() {
  {{INPUT}}
}
"#
        .trim(),
        c_raw_template.trim(),
        "Raw template has been changed. Update this test"
    );

    let c_template = Template::new(
        "c",
        vec![r#"printf("Hello, QuickerMD!\n");"#.to_string()],
        c_conf,
    );

    let resolve_template = c_template.get_resolved_template();

    assert_eq!(
        resolve_template.trim(),
        r#"
#include <stdio.h>
#include <stdlib.h>
#include <string.h>

int main() {
  printf("Hello, QuickerMD!\n");
}
"#
        .trim()
    )
}

#[test]
pub fn it_adds_a_whitespace_to_resolved_string_if_it_dne() {
    let mut config = get_exmaple_config();

    let js_conf = config.get_mut_lang_conf("js").unwrap();

    js_conf.set_raw_comment_string("//".to_string());

    assert_eq!(js_conf.get_raw_comment_string().unwrap(), "//");
    assert_eq!(js_conf.get_comment_string().unwrap(), "// %s");
}

#[test]
pub fn it_does_not_whitespace_to_comment_if_ends_with_ws() {
    let mut config = get_exmaple_config();

    let py_conf = config.get_mut_lang_conf("py").unwrap();

    py_conf.set_raw_comment_string("# ".to_string());

    assert_eq!(py_conf.get_raw_comment_string().unwrap(), "# ");
    assert_eq!(py_conf.get_comment_string().unwrap(), "# %s");
}

#[test]
pub fn it_adds_formats_specifier_to_comment_if_it_dne() {
    let mut config = get_exmaple_config();

    let c_conf = config.get_mut_lang_conf("c").unwrap();

    c_conf.set_raw_comment_string("// ".to_string());

    assert_eq!(c_conf.get_raw_comment_string().unwrap(), "// ");
    assert_eq!(c_conf.get_comment_string().unwrap(), "// %s");
}

#[test]
pub fn it_does_not_add_format_specifier_if_exists() {
    let mut config = get_exmaple_config();

    let c_conf = config.get_mut_lang_conf("c").unwrap();

    c_conf.set_raw_comment_string("/* %s */".to_string());

    assert_eq!(c_conf.get_raw_comment_string().unwrap(), "/* %s */");
    assert_eq!(c_conf.get_comment_string().unwrap(), "/* %s */");
}

#[test]
fn a_change_through_the_mutable_recipe_stays_in_the_configuration() {
    let mut config = get_exmaple_config();
    config.get_mut_lang_conf("js").unwrap().set_raw_comment_string("// %s".to_string());

    assert_eq!(
        config.get_lang_conf("js").unwrap().get_raw_comment_string().unwrap(),
        "// %s"
    );
    assert_eq!(config.get_lang_conf("c").unwrap().get_raw_comment_string(), None);
    assert!(config.get_mut_lang_conf("cobol").is_none());
}

#[test]
fn a_later_recipe_replaces_an_earlier_one() {
    let mut config = get_exmaple_config();
    config.insert("js".to_string(), language(None, &["deno", "run", "{{IN}}"], None));

    assert_eq!(config.get_lang_conf("js").unwrap().get_command_name(), "deno");
    assert_eq!(config.get_lang_conf("c").unwrap().get_command_name(), "gcc");
    assert_eq!(config.get_lang_conf("py").unwrap().get_command_name(), "python3");
}

#[test]
fn an_empty_configuration_holds_no_language() {
    let config = Config::new();
    assert!(config.get_lang_conf("c").is_none());
    assert!(config.get_lang_conf("").is_none());
}

#[test]
fn a_recipe_needs_a_command() {
    assert!(LanguageConfig::new(None, None, None, vec![], None, false).is_none());
    assert!(LanguageConfig::new(
        None,
        None,
        None,
        strings(&["gcc"]),
        Some(RunCommandType::StringVec(vec![])),
        false
    )
    .is_none());
    assert!(LanguageConfig::new(None, None, None, strings(&["gcc"]), None, false).is_some());
}

#[test]
fn the_command_is_split_into_name_and_arguments() {
    let conf = language(None, &["gcc", "{{IN}}", "-o", "{{OUT}}"], None);
    assert_eq!(conf.get_command_name(), "gcc");
    assert_eq!(conf.get_command_args(), strings(&["{{IN}}", "-o", "{{OUT}}"]));

    let bare = language(None, &["python3"], None);
    assert_eq!(bare.get_command_name(), "python3");
    assert_eq!(bare.get_command_args(), Vec::<String>::new());
}

#[test]
fn the_second_step_follows_the_configuration() {
    let unset = language(None, &["gcc"], None);
    assert_eq!(unset.get_run_command("/tmp/out".to_string()), None);
    assert!(!unset.explicit_no_run());

    let artifact = language(None, &["gcc"], Some(RunCommandType::Bool(true)));
    assert_eq!(
        artifact.get_run_command("/tmp/out".to_string()),
        Some(("/tmp/out".to_string(), vec![]))
    );
    assert!(!artifact.explicit_no_run());

    let none = language(None, &["gcc"], Some(RunCommandType::Bool(false)));
    assert_eq!(none.get_run_command("/tmp/out".to_string()), None);
    assert!(none.explicit_no_run());

    let bare = language(None, &["gcc"], Some(RunCommandType::StringVec(strings(&["java"]))));
    assert_eq!(bare.get_run_command("/tmp/out".to_string()), Some(("java".to_string(), vec![])));
    assert!(!bare.explicit_no_run());

    let long = language(
        None,
        &["gcc"],
        Some(RunCommandType::StringVec(strings(&["java", "-cp", "{{OUT}}", "Main"]))),
    );
    assert_eq!(
        long.get_run_command("/tmp/out".to_string()),
        Some(("java".to_string(), strings(&["-cp"])))
    );
}

#[test]
fn the_plain_parts_of_a_recipe_come_back_as_given() {
    let conf = LanguageConfig::new(
        Some("{{INPUT}}".to_string()),
        Some("// %s".to_string()),
        Some("rs".to_string()),
        strings(&["rustc"]),
        None,
        true,
    )
    .unwrap();
    assert_eq!(conf.get_raw_template(), Some("{{INPUT}}".to_string()));
    assert_eq!(conf.get_raw_comment_string(), Some("// %s".to_string()));
    assert_eq!(conf.get_extension(), Some("rs".to_string()));
    assert!(conf.get_redir_input());

    let bare = language(None, &["rustc"], None);
    assert_eq!(bare.get_raw_template(), None);
    assert_eq!(bare.get_raw_comment_string(), None);
    assert_eq!(bare.get_comment_string(), None);
    assert_eq!(bare.resolve_comment_string("x"), None);
    assert_eq!(bare.get_extension(), None);
    assert!(!bare.get_redir_input());
}

#[test]
fn a_comment_string_gets_its_place_for_the_text() {
    let mut conf = language(None, &["x"], None);
    for (raw, expected) in [
        ("//", "// %s"),
        ("// ", "// %s"),
        ("#\t", "#\t%s"),
        ("--\u{00A0}", "--\u{00A0}%s"),
        ("/* %s */", "/* %s */"),
        ("%s", "%s"),
        ("%", "% %s"),
        ("", " %s"),
    ] {
        conf.set_raw_comment_string(raw.to_string());
        assert_eq!(conf.get_comment_string().unwrap(), expected, "for {:?}", raw);
    }
}

#[test]
fn a_comment_string_takes_the_text_in_every_place() {
    let mut conf = language(None, &["x"], None);
    conf.set_raw_comment_string("/* %s */".to_string());
    assert_eq!(conf.resolve_comment_string("QuickMD Output").unwrap(), "/* QuickMD Output */");
    conf.set_raw_comment_string("%s-%s".to_string());
    assert_eq!(conf.resolve_comment_string("a").unwrap(), "a-a");
    conf.set_raw_comment_string("// ".to_string());
    assert_eq!(conf.resolve_comment_string("a").unwrap(), "// ");
}

#[test]
fn the_parsed_template_is_there_where_one_is_configured() {
    let with = language(Some("a\n{{INPUT}}\nb"), &["x"], None);
    let template = with.get_template().unwrap();
    assert_eq!(template.get_template_lines(), strings(&["a", "{{INPUT}}", "b"]));
    assert_eq!(template.get_input(), Vec::<String>::new());
    assert_eq!(template.get_resolved_template(), "a\n\nb");

    let without = language(None, &["x"], None);
    assert!(without.get_template().is_none());
}

#[test]
fn without_a_template_the_text_is_empty_and_there_are_no_lines() {
    let conf = language(None, &["x"], None);
    let template = Template::new("x", strings(&["print('hi')", "more"]), &conf);
    assert_eq!(template.get_resolved_template(), "");
    assert_eq!(template.to_string(), "");
    assert_eq!(template.get_template_lines(), Vec::<String>::new());
    assert_eq!(template.get_input(), strings(&["print('hi')", "more"]));
}

#[test]
fn an_empty_template_is_no_template() {
    let conf = language(Some(""), &["x"], None);
    let template = Template::new("x", strings(&["print('hi')"]), &conf);
    assert_eq!(template.get_resolved_template(), "");
    assert_eq!(template.get_template_lines(), Vec::<String>::new());
}

#[test]
fn resolving_twice_gives_the_same_text() {
    let conf = language(Some("begin\n{{INPUT}}\nend"), &["x"], None);
    let first = Template::new("x", strings(&["a", "b"]), &conf);
    let second = Template::new("x", strings(&["a", "b"]), &conf);
    assert_eq!(first.get_resolved_template(), "begin\na\nb\nend");
    assert_eq!(first.get_resolved_template(), second.get_resolved_template());
    assert_eq!(first.get_resolved_template(), first.get_resolved_template());

    let mut again = Template::new("x", strings(&["a", "b"]), &conf);
    again.resolve();
    assert_eq!(again.get_resolved_template(), "begin\na\nb\nend");
    again.resolve();
    assert_eq!(again.get_resolved_template(), "begin\na\nb\nend");
}

#[test]
fn every_marker_takes_the_input() {
    let conf = language(Some("{{INPUT}};\n  {{INPUT}}"), &["x"], None);
    let template = Template::new("x", strings(&["f()"]), &conf);
    assert_eq!(template.get_resolved_template(), "f();\n  f()");
}

#[test]
fn a_template_without_input_is_resolved_on_demand() {
    let conf = language(Some("begin\n{{INPUT}}\nend"), &["x"], None);
    let mut template = Template::new("x", vec![], &conf);
    assert_eq!(template.get_resolved_template(), "begin\n\nend");

    template.set_input("one\ntwo".to_string());
    assert_eq!(template.get_input(), strings(&["one", "two"]));
    assert_eq!(template.get_resolved_template(), "begin\none\ntwo\nend");

    template.set_input_from_vec(strings(&["three"]));
    assert_eq!(template.get_resolved_template(), "begin\nthree\nend");
}

#[test]
fn a_resolved_template_keeps_its_text_when_the_input_changes() {
    let conf = language(Some("begin\n{{INPUT}}\nend"), &["x"], None);
    let mut template = Template::new("x", strings(&["first"]), &conf);
    assert_eq!(template.get_resolved_template(), "begin\nfirst\nend");

    template.set_input_from_vec(strings(&["second"]));
    assert_eq!(template.get_input(), strings(&["second"]));
    assert_eq!(template.get_resolved_template(), "begin\nfirst\nend");

    template.resolve();
    assert_eq!(template.get_resolved_template(), "begin\nfirst\nend");
}

#[test]
fn the_default_template_is_empty() {
    let template = Template::default();
    assert_eq!(template.get_template_lines(), Vec::<String>::new());
    assert_eq!(template.get_input(), Vec::<String>::new());
    assert_eq!(template.get_resolved_template(), "");
}
