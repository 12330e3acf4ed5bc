use quickermd::output::{frame_compact, frame_pretty, json_string_of, Output, OutputType};
use quickermd::utils::u8_to_str;

#[test]
fn raw_render_leaves_out_an_empty_section() {
    let output = Output::new(OutputType::Raw, Some("hello\n".to_string()), Some(String::new()), 0);
    assert_eq!(output.to_string(), "Output:\nhello\n");
    assert_eq!(output.raw_to_string(), "Output:\nhello\n");
    assert!(output.has_stdout());
    assert!(!output.has_stderr());
}

#[test]
fn raw_render_has_both_sections_in_order() {
    let output = Output::new(
        OutputType::Raw,
        Some("Hello, World\n".to_string()),
        Some("Hello, Error\n".to_string()),
        1,
    );
    assert_eq!(output.raw_to_string(), "Output:\nHello, World\nError:\nHello, Error\n");

    let only_error = Output::new(OutputType::Raw, None, Some("bad".to_string()), 1);
    assert_eq!(only_error.raw_to_string(), "Error:\nbad");

    let nothing = Output::new(OutputType::Raw, None, None, 0);
    assert_eq!(nothing.raw_to_string(), "");
    assert!(!nothing.has_stdout());
    assert!(!nothing.has_stderr());
}

#[test]
fn absent_text_is_empty_text() {
    let output = Output::new(OutputType::JSON, None, None, 7);
    assert_eq!(output.get_stdout(), "");
    assert_eq!(output.get_stderr(), "");
    assert_eq!(output.get_exit_code(), 7);
    assert_eq!(output.get_format(), OutputType::JSON);
    assert_eq!(output.get_output_file(), "");
}

#[test]
fn compact_render_round_trips_through_a_parser() {
    let mut output =
        Output::new(OutputType::Raw, Some("hello\n".to_string()), Some(String::new()), 0);
    output.output_as(OutputType::JSON);
    let text = output.to_string();
    assert_eq!(text, r#"{"format":"JSON","stdout":"hello\n","stderr":"","code":0}"#);

    let parsed: serde_json::Value = serde_json::from_str(&text).unwrap();
    let object = parsed.as_object().unwrap();
    assert_eq!(object.len(), 4);
    assert_eq!(object["format"].as_str(), Some("JSON"));
    assert_eq!(object["stdout"].as_str(), Some(output.get_stdout().as_str()));
    assert_eq!(object["stderr"].as_str(), Some(output.get_stderr().as_str()));
    assert_eq!(object["code"].as_i64(), Some(output.get_exit_code() as i64));
}

#[test]
fn both_structured_renders_round_trip_for_awkward_text() {
    let stdout = "quote \" backslash \\ tab \t bell \u{7} nul \u{0} del \u{7f} é 漢 \u{1F600}\r\n";
    let stderr = "\u{8}\u{c}\u{1f}/";
    for format in [OutputType::JSON, OutputType::JsonPretty] {
        let output =
            Output::new(format, Some(stdout.to_string()), Some(stderr.to_string()), -2147483648);
        let parsed: serde_json::Value = serde_json::from_str(&output.to_string()).unwrap();
        assert_eq!(parsed["stdout"].as_str(), Some(stdout));
        assert_eq!(parsed["stderr"].as_str(), Some(stderr));
        assert_eq!(parsed["code"].as_i64(), Some(-2147483648));
    }
}

#[test]
fn pretty_render_is_indented_by_two_blanks() {
    let output = Output::new(
        OutputType::JsonPretty,
        Some("hello, from python!\n".to_string()),
        None,
        0,
    );
    assert_eq!(
        output.to_string(),
        "{\n  \"format\": \"JsonPretty\",\n  \"stdout\": \"hello, from python!\\n\",\n  \"stderr\": \"\",\n  \"code\": 0\n}"
    );
}

#[test]
fn a_json_string_escapes_what_json_asks_for() {
    assert_eq!(json_string_of(""), "\"\"");
    assert_eq!(json_string_of("plain"), "\"plain\"");
    assert_eq!(json_string_of("a\"b"), "\"a\\\"b\"");
    assert_eq!(json_string_of("a\\b"), "\"a\\\\b\"");
    assert_eq!(json_string_of("\u{8}\t\n\u{c}\r"), "\"\\b\\t\\n\\f\\r\"");
    assert_eq!(json_string_of("\u{0}\u{1}\u{b}\u{1f}"), "\"\\u0000\\u0001\\u000b\\u001f\"");
    assert_eq!(json_string_of(" /\u{7f}é\u{1F600}"), "\" /\u{7f}é\u{1F600}\"");
}

#[test]
fn the_frames_hold_what_they_are_given() {
    assert_eq!(
        frame_compact(OutputType::JSON, "\"a\"", "\"b\"", -5),
        r#"{"format":"JSON","stdout":"a","stderr":"b","code":-5}"#
    );
    assert_eq!(
        frame_compact(OutputType::Raw, "\"\"", "\"\"", 0),
        r#"{"format":"Raw","stdout":"","stderr":"","code":0}"#
    );
    assert_eq!(
        frame_pretty(OutputType::JsonPretty, "\"a\"", "\"b\"", 12),
        "{\n  \"format\": \"JsonPretty\",\n  \"stdout\": \"a\",\n  \"stderr\": \"b\",\n  \"code\": 12\n}"
    );
}

#[test]
fn choosing_a_rendering_changes_nothing_else() {
    let mut output = Output::new(OutputType::Raw, Some("o".to_string()), Some("e".to_string()), 3);
    output.set_output_file("/tmp/out".to_string());
    output.output_as(OutputType::JSON);
    output.output_as(OutputType::JSON);
    assert_eq!(output.get_format(), OutputType::JSON);
    assert_eq!(output.get_stdout(), "o");
    assert_eq!(output.get_stderr(), "e");
    assert_eq!(output.get_exit_code(), 3);
    assert_eq!(output.get_output_file(), "/tmp/out");
    assert_eq!(output.to_string(), r#"{"format":"JSON","stdout":"o","stderr":"e","code":3}"#);
    output.output_as(OutputType::Raw);
    assert_eq!(output.to_string(), "Output:\noError:\ne");
}

#[test]
fn a_result_from_bytes_decodes_both_streams() {
    let output = Output::from_u8(OutputType::Raw, &b"out\n".to_vec(), &b"err\n".to_vec(), Some(2));
    assert_eq!(output.get_stdout(), "out\n");
    assert_eq!(output.get_stderr(), "err\n");
    assert_eq!(output.get_exit_code(), 2);

    let killed = Output::from_u8(OutputType::Raw, &vec![], &vec![], None);
    assert_eq!(killed.get_exit_code(), 0);
    assert!(!killed.has_stdout());
}

#[test]
fn decoding_never_fails() {
    assert_eq!(u8_to_str(&b"plain".to_vec()), "plain");
    assert_eq!(u8_to_str(&"é漢\u{1F600}".as_bytes().to_vec()), "é漢\u{1F600}");
    assert_eq!(u8_to_str(&vec![]), "");
    assert_eq!(u8_to_str(&vec![0xFF]), "\u{FFFD}");
    assert_eq!(u8_to_str(&vec![b'a', 0xC3, b'b']), "a\u{FFFD}b");
    assert_eq!(u8_to_str(&vec![0xE2, 0x82]), "\u{FFFD}");
}
