use chatter::detect::{
    extract_file_path, extract_search_pattern, parse_natural_language_tools, parse_tool_calls,
    tool_call_from_json, try_parse_json_tool_call,
};
use chatter::json::{JsonNumber, JsonValue};
use chatter::text::chars_of;
use chatter::tools::ToolCall;

fn t(s: &str) -> JsonValue {
    JsonValue::Text(s.to_string())
}

fn text(v: Option<Vec<char>>) -> Option<String> {
    v.map(|c| c.iter().collect())
}

#[test]
fn a_line_of_json_is_read_as_a_tool_call() {
    let message = "Let me look.\n  {\"tool\": \"read_file\", \"parameters\": {\"path\": \"a.txt\", \"n\": 3}, \"thought\": \"why\"}  \nDone.";
    let call = try_parse_json_tool_call(message).unwrap();
    assert_eq!(call.tool, "read_file");
    assert_eq!(call.thought, Some("why".to_string()));
    assert_eq!(call.reasoning, None);
    let mut parameters = call.parameters.clone();
    parameters.sort_by(|a, b| a.0.cmp(&b.0));
    assert_eq!(
        parameters,
        vec![
            ("n".to_string(), JsonValue::Number(JsonNumber::Unsigned(3))),
            ("path".to_string(), t("a.txt")),
        ]
    );
}

#[test]
fn the_first_line_that_is_a_tool_call_is_taken() {
    let message = "{not json}\n{\"tool\": 1, \"parameters\": {}}\n{\"tool\": \"a\", \"parameters\": {}}\n{\"tool\": \"b\", \"parameters\": {}}";
    assert_eq!(try_parse_json_tool_call(message).unwrap().tool, "a");
    assert!(try_parse_json_tool_call("no json here").is_none());
    assert!(try_parse_json_tool_call("{\"tool\": \"a\"}").is_none());
    assert!(try_parse_json_tool_call("[{\"tool\": \"a\", \"parameters\": {}}]").is_none());
    assert!(try_parse_json_tool_call("{\"tool\": \"a\",\n\"parameters\": {}}").is_none());
}

#[test]
fn a_tool_call_has_a_shape() {
    let shaped = |fields: Vec<(&str, JsonValue)>| {
        tool_call_from_json(&JsonValue::Object(
            fields.into_iter().map(|(k, v)| (k.to_string(), v)).collect(),
        ))
    };
    let ok = shaped(vec![
        ("tool", t("x")),
        ("parameters", JsonValue::Object(Vec::new())),
        ("thought", JsonValue::Null),
        ("reasoning", t("r")),
        ("more", JsonValue::Bool(true)),
    ])
    .unwrap();
    assert_eq!(
        ok,
        ToolCall {
            tool: "x".to_string(),
            parameters: Vec::new(),
            thought: None,
            reasoning: Some("r".to_string())
        }
    );
    assert!(shaped(vec![("tool", t("x")), ("parameters", JsonValue::Array(Vec::new()))]).is_none());
    assert!(shaped(vec![("tool", JsonValue::Null), ("parameters", JsonValue::Object(Vec::new()))])
        .is_none());
    assert!(shaped(vec![
        ("tool", t("x")),
        ("parameters", JsonValue::Object(Vec::new())),
        ("thought", JsonValue::Bool(false)),
    ])
    .is_none());
    assert!(tool_call_from_json(&t("x")).is_none());
}

#[test]
fn numbers_keep_their_kind() {
    let call = try_parse_json_tool_call(
        "{\"tool\": \"x\", \"parameters\": {\"a\": 7, \"b\": -7, \"c\": 1.5, \"d\": [true, null]}}",
    )
    .unwrap();
    let get = |k: &str| call.parameters.iter().find(|(n, _)| n == k).map(|(_, v)| v.clone()).unwrap();
    assert_eq!(get("a"), JsonValue::Number(JsonNumber::Unsigned(7)));
    assert_eq!(get("b"), JsonValue::Number(JsonNumber::Signed(-7)));
    assert_eq!(get("c"), JsonValue::Number(JsonNumber::FloatBits(1.5f64.to_bits())));
    assert_eq!(get("d"), JsonValue::Array(vec![JsonValue::Bool(true), JsonValue::Null]));
    assert_eq!(get("a").as_u64(), Some(7));
    assert_eq!(get("b").as_u64(), None);
    assert_eq!(get("c").as_u64(), None);
}

#[test]
fn a_path_is_guessed_from_a_dot_or_from_quotes() {
    let path = |s: &str| text(extract_file_path(&chars_of(s)));
    assert_eq!(path("please read src/main.rs now"), Some("src/main.rs".to_string()));
    assert_eq!(path("read the file notes.txt."), Some("notes.txt.".to_string()));
    assert_eq!(path("open \"my notes\" please"), Some("my notes".to_string()));
    assert_eq!(path("open 'README' please"), Some("README".to_string()));
    assert_eq!(path("open \"unfinished quote"), None);
    assert_eq!(path("nothing to see"), None);
    assert_eq!(path("first \"a b\" then c.txt"), Some("a b".to_string()));
    assert_eq!(path("\""), Some("".to_string()));
}

#[test]
fn a_search_pattern_is_guessed_from_quotes_or_from_for() {
    let pattern = |s: &str| text(extract_search_pattern(&chars_of(s)));
    assert_eq!(pattern("search for \"hello world\" in src"), Some("hello world".to_string()));
    assert_eq!(pattern("find 'todo' please"), Some("todo".to_string()));
    assert_eq!(pattern("search for todo in src"), Some("todo".to_string()));
    assert_eq!(pattern("search for todo"), Some("todo".to_string()));
    assert_eq!(pattern("look for "), Some("".to_string()));
    assert_eq!(pattern("search for  x"), Some("".to_string()));
    assert_eq!(pattern("say \"half and 'whole' words"), Some("whole".to_string()));
    assert_eq!(pattern("search everything"), None);
    assert_eq!(pattern("\"\""), Some("".to_string()));
}

#[test]
fn plain_words_are_taken_for_tool_calls() {
    let calls = parse_natural_language_tools("Please READ the file Notes.TXT");
    assert_eq!(
        calls,
        vec![ToolCall {
            tool: "read_file".to_string(),
            parameters: vec![("path".to_string(), t("notes.txt"))],
            thought: Some("Reading file content as requested".to_string()),
            reasoning: Some("User requested to read a file".to_string()),
        }]
    );
    let calls = parse_natural_language_tools("search for TODO");
    assert_eq!(
        calls,
        vec![ToolCall {
            tool: "search_files".to_string(),
            parameters: vec![("pattern".to_string(), t("todo")), ("directory".to_string(), t("."))],
            thought: Some("Searching for files as requested".to_string()),
            reasoning: Some("User requested to search for files".to_string()),
        }]
    );
    let calls = parse_natural_language_tools("list the files");
    assert_eq!(
        calls,
        vec![ToolCall {
            tool: "list_directory".to_string(),
            parameters: vec![("path".to_string(), t("."))],
            thought: Some("Listing directory contents as requested".to_string()),
            reasoning: Some("User requested to list files or directory contents".to_string()),
        }]
    );
    assert!(parse_natural_language_tools("hello there").is_empty());
    assert!(parse_natural_language_tools("read the content").is_empty());
}

#[test]
fn one_message_can_ask_for_several_things() {
    let calls = parse_natural_language_tools("Read the file src/a.rs, find 'x' and list the directory");
    let tools: Vec<&str> = calls.iter().map(|c| c.tool.as_str()).collect();
    assert_eq!(tools, vec!["read_file", "search_files", "list_directory"]);
    assert_eq!(calls[0].parameters, vec![("path".to_string(), t("src/a.rs,"))]);
    assert_eq!(calls[1].parameters[0], ("pattern".to_string(), t("x")));
    assert_eq!(calls[2].parameters, vec![("path".to_string(), t("src/a.rs,"))]);
}

#[test]
fn json_comes_before_plain_words() {
    let calls = parse_tool_calls("list the files\n{\"tool\": \"file_info\", \"parameters\": {\"path\": \"a\"}}");
    let tools: Vec<&str> = calls.iter().map(|c| c.tool.as_str()).collect();
    assert_eq!(tools, vec!["file_info", "list_directory"]);
}
