use boast::load::{
    command_invocation, command_output_data, encode_dataset, fill_dataset, json_data_source,
    json_datasets, load_json, test_command_parts, LoadError,
};
use boast::text::u64_to_decimal;

#[test]
fn json_rows_become_datasets_of_value_texts() {
    let bytes = br#"[[1, "a", true], [2.5, null, {"k": 1}]]"#;
    let (len, rows) = load_json(bytes).unwrap();
    assert_eq!(len, 3);
    assert_eq!(rows, vec![
        vec!["1".to_string(), "\"a\"".to_string(), "true".to_string()],
        vec!["2.5".to_string(), "null".to_string(), "{\"k\":1}".to_string()],
    ]);
}

#[test]
fn empty_json_array_is_refused() {
    assert_eq!(load_json(b"[]"), Err(LoadError::EmptyJson));
    assert_eq!(LoadError::EmptyJson.message(), "JSON file is empty");
    assert_eq!(json_datasets(vec![]), Err(LoadError::EmptyJson));
}

#[test]
fn malformed_json_is_refused_with_its_reason() {
    match load_json(b"[[1, 2]") {
        Err(LoadError::Json(reason)) => assert!(!reason.is_empty()),
        other => panic!("unexpected {other:?}"),
    }
    assert!(matches!(load_json(b"{\"a\": 1}"), Err(LoadError::Json(_))));
}

#[test]
fn json_data_source_hands_out_the_rows_in_order() {
    let mut src = json_data_source(b"[[\"x\"], [\"y\", \"z\"]]").unwrap();
    assert_eq!(src.len(), 1);
    assert_eq!(src.get_data(0), Ok(vec!["\"x\"".to_string()]));
    assert_eq!(src.get_data(0), Ok(vec!["\"y\"".to_string(), "\"z\"".to_string()]));
    assert!(src.get_data(0).is_err());
}

#[test]
fn decimal_text_of_seeds() {
    for n in [0u64, 7, 10, 99, 12345, u64::MAX] {
        assert_eq!(u64_to_decimal(n), n.to_string());
    }
}

#[test]
fn data_command_gets_the_seed_first() {
    let (program, args) = command_invocation("  gen  --fast -n 3 ", 42).unwrap();
    assert_eq!(program, "gen");
    assert_eq!(args, vec!["42", "--fast", "-n", "3"]);
    let (program, args) = command_invocation("solo", 0).unwrap();
    assert_eq!(program, "solo");
    assert_eq!(args, vec!["0"]);
}

#[test]
fn empty_data_command_is_refused() {
    assert_eq!(command_invocation("   ", 1), Err(LoadError::EmptyCommand));
    assert_eq!(LoadError::EmptyCommand.message(), "Command cannot be empty");
}

#[test]
fn command_output_lines_are_the_dataset() {
    assert_eq!(command_output_data("1\n2\r\n3\n").unwrap(), vec!["1", "2", "3"]);
    assert_eq!(command_output_data(""), Err(LoadError::EmptyOutput));
    assert_eq!(LoadError::EmptyOutput.message(), "Command output is empty");
}

#[test]
fn test_command_words() {
    assert_eq!(test_command_parts("python  check.py -v").unwrap(), vec!["python", "check.py", "-v"]);
    assert!(test_command_parts(" \t ").is_none());
}

#[test]
fn datasets_are_sent_as_json_string_arrays() {
    let data = vec!["a".to_string(), "q\"t".to_string(), "1".to_string()];
    assert_eq!(encode_dataset(&data), r#"["a","q\"t","1"]"#);
    assert_eq!(encode_dataset(&[]), "[]");
}

#[test]
fn command_output_is_written_over_the_dataset() {
    let mut dst = vec![String::new(), "old".to_string()];
    fill_dataset(&mut dst, vec!["a".to_string(), "b".to_string()]);
    assert_eq!(dst, vec!["a".to_string(), "b".to_string()]);
}

#[test]
fn encoded_strings_are_escaped_as_json() {
    let data = vec!["a\"b\\c\n\t\u{1}\u{1f}/é\u{7f}".to_string(), String::new()];
    assert_eq!(
        encode_dataset(&data),
        "[\"a\\\"b\\\\c\\n\\t\\u0001\\u001f/é\u{7f}\",\"\"]"
    );
}

#[test]
fn a_non_empty_command_and_output_are_accepted() {
    let (program, args) = command_invocation("gen --fast", 3).unwrap();
    assert_eq!(program, "gen");
    assert_eq!(args, vec!["3".to_string(), "--fast".to_string()]);
    assert_eq!(command_output_data("x\ny\n"), Ok(vec!["x".to_string(), "y".to_string()]));
}
