use quickermd::cli::OutputFormat;
use quickermd::output::{Output, OutputType};
use quickermd::outputer::{
    default_error, default_icon, default_input, default_output, Color, OutputArgs, Section,
    SectionKind,
};
use quickermd::resolver::{input, output, InputSource};

fn strings(parts: &[&str]) -> Vec<String> {
    parts.iter().map(|s| s.to_string()).collect()
}

#[test]
fn a_style_is_chosen_by_name_in_any_case() {
    assert_eq!(OutputFormat::from("json".to_string()), OutputFormat::Json);
    assert_eq!(OutputFormat::from("JSON".to_string()), OutputFormat::Json);
    assert_eq!(OutputFormat::from("Json-Pretty".to_string()), OutputFormat::JsonPretty);
    assert_eq!(OutputFormat::from("pretty".to_string()), OutputFormat::Pretty);
    assert_eq!(OutputFormat::from("COMMENT".to_string()), OutputFormat::Comment);
    assert_eq!(OutputFormat::from("raw".to_string()), OutputFormat::Raw);
    assert_eq!(OutputFormat::from("anything".to_string()), OutputFormat::Raw);
    assert_eq!(OutputFormat::from(String::new()), OutputFormat::Raw);
}

#[test]
fn a_style_given_in_lower_case_is_matched_exactly() {
    assert_eq!(OutputFormat::from_name("json"), OutputFormat::Json);
    assert_eq!(OutputFormat::from_name("JSON"), OutputFormat::Raw);
    assert_eq!(OutputFormat::from_name("json "), OutputFormat::Raw);
    assert_eq!(OutputFormat::from_name("json-pretty"), OutputFormat::JsonPretty);
    assert_eq!(OutputFormat::from_name("pretty"), OutputFormat::Pretty);
    assert_eq!(OutputFormat::from_name("comment"), OutputFormat::Comment);
}

#[test]
fn a_style_has_a_name_and_a_rendering() {
    let all = [
        (OutputFormat::Json, "json", OutputType::JSON),
        (OutputFormat::JsonPretty, "json-pretty", OutputType::JsonPretty),
        (OutputFormat::Pretty, "pretty", OutputType::Raw),
        (OutputFormat::Comment, "comment", OutputType::Raw),
        (OutputFormat::Raw, "raw", OutputType::Raw),
    ];
    for (style, name, rendering) in all {
        assert_eq!(style.to_string(), name);
        assert_eq!(OutputFormat::from(name.to_string()), style);
        assert_eq!(OutputType::from(style), rendering);
        let converted: OutputType = style.into();
        assert_eq!(converted, rendering);
    }
    assert_eq!(OutputFormat::default(), OutputFormat::Pretty);
}

#[test]
fn a_rendering_is_chosen_by_name() {
    assert_eq!(OutputType::from("json".to_string()), OutputType::JSON);
    assert_eq!(OutputType::from("json-pretty".to_string()), OutputType::Raw);
    assert_eq!(OutputType::from("JSON".to_string()), OutputType::Raw);
    assert_eq!(OutputType::from("raw".to_string()), OutputType::Raw);
    assert_eq!(OutputType::from(String::new()), OutputType::Raw);
    assert_eq!(OutputType::JSON.to_string(), "json");
    assert_eq!(OutputType::JsonPretty.to_string(), "json-pretty");
    assert_eq!(OutputType::Raw.to_string(), "raw");
}

#[test]
fn the_usual_sections_are_headed_and_coloured() {
    let input = default_input();
    assert_eq!(input.get_name(), "Input");
    assert_eq!(input.get_icon(), "#");
    assert_eq!(input.get_color(), "blue");
    assert!(input.wants_bold());
    assert!(!input.wants_italic());
    assert!(!input.wants_underline());
    assert!(!input.wants_strikethrough());
    assert!(input.is_empty());
    assert_eq!(input.get_value(), "");
    assert_eq!(input.get_formatted_header(), "# Input");

    assert_eq!(default_output().get_formatted_header(), "# Output");
    assert_eq!(default_output().get_color(), "green");
    assert_eq!(default_error().get_formatted_header(), "# Error");
    assert_eq!(default_error().get_color(), "red");
    assert_eq!(default_icon(), "#");
}

#[test]
fn a_section_takes_any_value_that_has_a_text() {
    let mut section =
        Section::new("Result".to_string(), ">".to_string(), "cyan".to_string(), false, true, true, true);
    assert!(section.is_empty());
    assert!(!section.wants_bold());
    assert!(section.wants_italic());
    assert!(section.wants_strikethrough());
    assert!(section.wants_underline());
    section.resolve_value("text");
    assert_eq!(section.get_value(), "text");
    assert!(!section.is_empty());
    section.resolve_value(12);
    assert_eq!(section.get_value(), "12");
    section.resolve_value(String::new());
    assert!(section.is_empty());
    assert_eq!(section.get_formatted_header(), "> Result");
}

#[test]
fn a_section_is_written_as_comments_line_by_line() {
    let mut section = default_output();
    section.resolve_value("one\ntwo\n");
    assert_eq!(section.write_as_comment("// %s"), strings(&["// # Output", "// one", "// two"]));
    assert_eq!(section.write_as_comment("/* %s */"), strings(&["/* # Output */", "/* one */", "/* two */"]));
    assert_eq!(section.write_as_comment(""), strings(&["", "", ""]));
    assert_eq!(section.write_as_comment("%s"), strings(&["# Output", "one", "two"]));
}

#[test]
fn a_section_without_text_is_not_written() {
    assert_eq!(default_output().write_as_comment("// %s"), Vec::<String>::new());
}

#[test]
fn the_sections_are_written_in_their_order() {
    let mut args = OutputArgs::default();
    assert_eq!(args.get_order(), vec![SectionKind::Input, SectionKind::Output, SectionKind::Error]);
    assert!(!args.get_show_input());
    args.set_reserved_section_values("in".to_string(), "out\nmore".to_string(), "err".to_string());
    assert_eq!(
        args.write_as_comment("# %s"),
        strings(&["# # Input", "# in", "# # Output", "# out", "# more", "# # Error", "# err"])
    );

    let mut reversed = OutputArgs::new(
        vec![SectionKind::Error, SectionKind::Output, SectionKind::Output],
        true,
        default_input(),
        default_output(),
        default_error(),
    );
    assert!(reversed.get_show_input());
    reversed.set_reserved_section_values("in".to_string(), "out".to_string(), String::new());
    assert_eq!(
        reversed.write_as_comment("; %s"),
        strings(&["; # Output", "; out", "; # Output", "; out"])
    );
    assert_eq!(reversed.get_section(SectionKind::Input).get_value(), "in");
}

#[test]
fn a_section_is_named_in_lower_case() {
    assert_eq!(SectionKind::from_name("input"), Some(SectionKind::Input));
    assert_eq!(SectionKind::from_name("output"), Some(SectionKind::Output));
    assert_eq!(SectionKind::from_name("error"), Some(SectionKind::Error));
    assert_eq!(SectionKind::from_name("Input"), None);
    assert_eq!(SectionKind::from_name(""), None);
    assert_eq!(SectionKind::from_name("stdout"), None);
}

#[test]
fn the_input_section_can_be_changed_in_place() {
    let mut args = OutputArgs::default();
    args.set_reserved_section_values("in".to_string(), "out".to_string(), "err".to_string());
    args.get_input().resolve_value("other");
    assert_eq!(args.get_section(SectionKind::Input).get_value(), "other");
    assert_eq!(args.get_section(SectionKind::Output).get_value(), "out");
    assert_eq!(args.get_section(SectionKind::Error).get_value(), "err");
}

#[test]
fn an_argument_goes_before_standard_input() {
    match input(&Some("a\nb".to_string()), true) {
        InputSource::Given(lines) => assert_eq!(lines, strings(&["a", "b"])),
        _ => panic!("the argument is the input"),
    }
    match input(&Some("a\nb".to_string()), false) {
        InputSource::Given(lines) => assert_eq!(lines, strings(&["a", "b"])),
        _ => panic!("the argument is the input"),
    }
    match input(&Some(String::new()), false) {
        InputSource::Given(lines) => assert_eq!(lines, Vec::<String>::new()),
        _ => panic!("the argument is the input"),
    }
    assert!(matches!(input(&None, false), InputSource::Stdin));
    assert!(matches!(input(&None, true), InputSource::Missing));
}

#[test]
fn what_was_put_in_is_shown_only_on_demand() {
    let result = Output::new(OutputType::Raw, Some("out".to_string()), Some("err".to_string()), 1);

    let hidden = output(None, "in".to_string(), &result, false);
    assert_eq!(hidden.get_section(SectionKind::Input).get_value(), "");
    assert_eq!(hidden.get_section(SectionKind::Output).get_value(), "out");
    assert_eq!(hidden.get_section(SectionKind::Error).get_value(), "err");
    assert_eq!(hidden.write_as_comment("%s"), strings(&["# Output", "out", "# Error", "err"]));

    let shown = output(None, "in".to_string(), &result, true);
    assert_eq!(shown.get_section(SectionKind::Input).get_value(), "in");

    let configured = OutputArgs::new(
        vec![SectionKind::Output],
        false,
        default_input(),
        Section::new("Result".to_string(), "=>".to_string(), String::new(), false, false, false, false),
        default_error(),
    );
    let custom = output(Some(configured), "in".to_string(), &result, true);
    assert_eq!(custom.write_as_comment("// %s"), strings(&["// => Result", "// out"]));
}

#[test]
fn a_heading_is_set_in_its_colour_or_in_blue() {
    let cases = [
        ("green", Color::Green),
        ("RED", Color::Red),
        ("Black", Color::Black),
        ("blue", Color::Blue),
        ("cyan", Color::Cyan),
        ("magenta", Color::Magenta),
        ("yellow", Color::Yellow),
        ("white", Color::White),
        ("12", Color::Ansi256(12)),
        ("0x10", Color::Ansi256(16)),
        ("1,2,3", Color::Rgb(1, 2, 3)),
        ("", Color::Blue),
        ("nonsense", Color::Blue),
        ("256", Color::Blue),
        ("1,2", Color::Blue),
    ];
    for (name, color) in cases {
        let section = Section::new(
            "Result".to_string(),
            "#".to_string(),
            name.to_string(),
            true,
            false,
            true,
            false,
        );
        let style = section.get_style();
        assert_eq!(style.color, color, "for {:?}", name);
        assert!(style.bold);
        assert!(!style.italic);
        assert!(style.strikethrough);
        assert!(!style.underline);
    }
    assert_eq!(default_error().get_style().color, Color::Red);
}
