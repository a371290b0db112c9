use chatter::bridge::{
    build_tool_result_payload, convert_model_tool_call, extract_argument_map, format_tool_result,
    normalize_conversation_for_gemini, ArgumentError, Content, ModelToolCall, Part,
};
use chatter::json::{JsonNumber, JsonValue};
use chatter::tools::ToolResult;

fn t(s: &str) -> JsonValue {
    JsonValue::Text(s.to_string())
}

fn n(k: u64) -> JsonValue {
    JsonValue::Number(JsonNumber::Unsigned(k))
}

fn object(list: &[(&str, JsonValue)]) -> JsonValue {
    JsonValue::Object(list.iter().map(|(k, v)| (k.to_string(), v.clone())).collect())
}

fn get<'a>(map: &'a [(String, JsonValue)], key: &str) -> Option<&'a JsonValue> {
    map.iter().find(|(k, _)| k == key).map(|(_, v)| v)
}

fn sample_tool_result() -> ToolResult {
    ToolResult {
        success: true,
        data: object(&[("answer", n(42))]),
        message: Some("All good".to_string()),
        modified_files: vec!["foo.txt".to_string(), "bar/baz.rs".to_string()],
    }
}

#[test]
fn convert_model_tool_call_extracts_parameters() {
    let call = ModelToolCall {
        id: Some("tool-1".to_string()),
        name: "search_files".to_string(),
        arguments: object(&[("pattern", t("TODO")), ("path", t("src"))]),
    };

    let converted = convert_model_tool_call(&call).expect("conversion should succeed");
    assert_eq!(converted.tool, "search_files");
    assert_eq!(get(&converted.parameters, "pattern").unwrap(), &t("TODO"));
    assert_eq!(get(&converted.parameters, "path").unwrap(), &t("src"));
}

#[test]
fn extract_argument_map_parses_json_strings() {
    let raw = JsonValue::Text("{\"path\": \"src\", \"pattern\": \"TODO\"}".to_string());
    let map = extract_argument_map(&raw).expect("stringified JSON should parse");
    assert_eq!(get(&map, "path").unwrap(), &t("src"));
    assert_eq!(get(&map, "pattern").unwrap(), &t("TODO"));
}

#[test]
fn build_tool_result_payload_contains_expected_fields() {
    let payload = build_tool_result_payload("read_file", &sample_tool_result());
    assert_eq!(payload.get("tool"), Some(&t("read_file")));
    assert_eq!(payload.get("success"), Some(&JsonValue::Bool(true)));
    assert_eq!(payload.get("message"), Some(&t("All good")));
    assert_eq!(payload.get("data"), Some(&object(&[("answer", n(42))])));

    let modified = match payload.get("modified_files") {
        Some(JsonValue::Array(items)) => items,
        other => panic!("array expected, got {:?}", other),
    };
    assert_eq!(modified.len(), 2);
    assert!(modified.iter().any(|v| v == &t("foo.txt")));
    assert!(modified.iter().any(|v| v == &t("bar/baz.rs")));
}

fn content_with_role(role: &str, text: &str) -> Content {
    Content {
        role: role.to_string(),
        parts: vec![Part { text: text.to_string() }],
        name: None,
        tool_call_id: None,
        tool_calls: Vec::new(),
    }
}

#[test]
fn normalize_conversation_filters_and_maps_roles() {
    let conversation = vec![
        content_with_role("user", "Hello"),
        content_with_role("assistant", "Hi there"),
        content_with_role("system", "Guidance"),
        content_with_role("tool", "Tool output"),
        content_with_role("model", "Response"),
    ];

    let normalized = normalize_conversation_for_gemini(&conversation);

    assert_eq!(normalized.len(), 3, "system/tool messages should be dropped");
    assert_eq!(normalized[0].role, "user");
    assert_eq!(normalized[0].parts[0].text, "Hello");
    assert_eq!(normalized[1].role, "model");
    assert_eq!(normalized[1].parts[0].text, "Hi there");
    assert_eq!(normalized[2].role, "model");
    assert_eq!(normalized[2].parts[0].text, "Response");
}

#[test]
fn normalizing_drops_names_and_tool_calls() {
    let mut turn = content_with_role("assistant", "calling");
    turn.name = Some("helper".to_string());
    turn.tool_call_id = Some("7".to_string());
    turn.tool_calls.push(ModelToolCall { id: None, name: "x".to_string(), arguments: JsonValue::Null });
    let normalized = normalize_conversation_for_gemini(&[turn]);
    assert_eq!(normalized, vec![content_with_role("model", "calling")]);
    assert_eq!(Content::user("hi".to_string()), content_with_role("user", "hi"));
    assert_eq!(Content::model("ho".to_string()), content_with_role("model", "ho"));
}

#[test]
fn arguments_are_an_object_or_a_string_that_holds_one() {
    assert_eq!(extract_argument_map(&JsonValue::Null), Ok(Vec::new()));
    assert_eq!(extract_argument_map(&t("   ")), Ok(Vec::new()));
    assert_eq!(extract_argument_map(&t("null")), Ok(Vec::new()));
    assert_eq!(
        extract_argument_map(&t("\"{\\\"a\\\": 1}\"")),
        Ok(vec![("a".to_string(), n(1))])
    );
    assert_eq!(extract_argument_map(&t("{oops")), Err(ArgumentError::Unparsable));
    assert_eq!(extract_argument_map(&n(3)), Err(ArgumentError::NotAnObject(n(3))));
    assert_eq!(
        extract_argument_map(&t("[1]")),
        Err(ArgumentError::NotAnObject(JsonValue::Array(vec![n(1)])))
    );
    let call = ModelToolCall { id: None, name: "x".to_string(), arguments: JsonValue::Bool(true) };
    assert_eq!(
        convert_model_tool_call(&call),
        Err(ArgumentError::NotAnObject(JsonValue::Bool(true)))
    );
}

fn result_with(data: JsonValue) -> ToolResult {
    ToolResult { success: true, data, message: Some("done".to_string()), modified_files: Vec::new() }
}

#[test]
fn results_of_file_tools_are_worded() {
    assert_eq!(
        format_tool_result(
            "read_file",
            &result_with(object(&[("content", t("hi")), ("path", t("a.txt")), ("size", n(2))]))
        ),
        "📄 **File: a.txt** (2 bytes)\n```\nhi\n```"
    );
    assert_eq!(format_tool_result("read_file", &result_with(JsonValue::Null)), "File read completed");
    assert_eq!(
        format_tool_result("write_file", &result_with(object(&[("path", t("a.txt")), ("size", n(12))]))),
        "💾 **File written:** a.txt (12 bytes)"
    );
    assert_eq!(
        format_tool_result("write_file", &result_with(object(&[]))),
        "💾 **File written:** unknown (0 bytes)"
    );
    assert_eq!(
        format_tool_result(
            "update_file",
            &result_with(object(&[("path", t("a.txt")), ("operation", t("append"))]))
        ),
        "✏️ **File updated:** a.txt (operation: append)"
    );
    assert_eq!(
        format_tool_result(
            "file_info",
            &result_with(object(&[("path", t("a.txt")), ("size", n(3)), ("type", t("file"))]))
        ),
        "ℹ️ **File info for 'a.txt':** a.txt (3 bytes, type: file)"
    );
    assert_eq!(format_tool_result("other", &result_with(JsonValue::Null)), "done");
    let silent = ToolResult { message: None, ..result_with(JsonValue::Null) };
    assert_eq!(format_tool_result("other", &silent), "Tool executed successfully");
}

#[test]
fn search_results_show_the_first_ten_matches() {
    let found = |k: u64| object(&[("file", t("a.rs")), ("line", n(k)), ("content", t("x"))]);
    let data = |count: u64| {
        object(&[
            ("pattern", t("x")),
            ("matches_found", n(count)),
            ("files_searched", n(1)),
            ("results", JsonValue::Array((1..=count).map(found).collect())),
        ])
    };
    assert_eq!(
        format_tool_result("search_files", &result_with(data(0))),
        "🔍 **Search results for 'x':** 0 matches in 1 files"
    );
    assert_eq!(
        format_tool_result("search_files", &result_with(data(2))),
        "🔍 **Search results for 'x':** 2 matches in 1 files\n\n**Matches:**\n1. **a.rs:1** `x`\n2. **a.rs:2** `x`"
    );
    let many = format_tool_result("search_files", &result_with(data(12)));
    assert!(many.contains("\n10. **a.rs:10** `x`"));
    assert!(!many.contains("\n11. "));
    assert!(many.ends_with("\n... and 2 more matches"));
    let odd = object(&[("results", JsonValue::Array(vec![t("not a match"), found(5)]))]);
    assert_eq!(
        format_tool_result("search_files", &result_with(odd)),
        "🔍 **Search results for 'unknown':** 0 matches in 0 files\n\n**Matches:**\n2. **a.rs:5** `x`"
    );
}

#[test]
fn listings_show_the_first_twenty_entries() {
    let entry = |name: &str, kind: &str| object(&[("name", t(name)), ("type", t(kind))]);
    let data = object(&[
        ("path", t(".")),
        ("entry_count", n(2)),
        ("entries", JsonValue::Array(vec![entry("src", "directory"), entry("a.txt", "file")])),
    ]);
    assert_eq!(
        format_tool_result("list_directory", &result_with(data)),
        "📁 **Directory listing for '.':** 2 entries\n\n**Contents:**\n📁 src\n📄 a.txt"
    );
    let many = object(&[(
        "entries",
        JsonValue::Array((0..25).map(|_| entry("f", "file")).collect()),
    )]);
    let shown = format_tool_result("list_directory", &result_with(many));
    assert_eq!(shown.matches("\n📄 f").count(), 20);
    assert!(shown.ends_with("\n... and 5 more entries"));
}
