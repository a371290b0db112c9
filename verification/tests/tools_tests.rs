use chatter::json::{JsonNumber, JsonValue};
use chatter::pattern::glob_match;
use chatter::tools::{
    is_text_file, scan_file, search_regex, Edit, EntryFacts, FileFacts, FileInfoTool,
    InspectOutcome, ListDirectoryTool, PathKind, ReadFileTool, SearchFilesTool, SearchStart,
    Tool, ToolError, ToolResult, UpdateFileTool, UpdateStep, WriteFileTool, WriteOutcome,
};

fn params(list: &[(&str, JsonValue)]) -> Vec<(String, JsonValue)> {
    list.iter().map(|(k, v)| (k.to_string(), v.clone())).collect()
}

fn t(s: &str) -> JsonValue {
    JsonValue::Text(s.to_string())
}

fn n(k: u64) -> JsonValue {
    JsonValue::Number(JsonNumber::Unsigned(k))
}

fn object(list: &[(&str, JsonValue)]) -> JsonValue {
    JsonValue::Object(params(list))
}

fn edit(operation: &str, original: &str, list: &[(&str, JsonValue)]) -> Result<Edit, ToolError> {
    UpdateFileTool.edit(operation, original, &params(list))
}

#[test]
fn append_adds_after_a_line_feed() {
    assert_eq!(edit("append", "A", &[("replacement", t("X"))]), Ok(Edit::Text("A\nX".to_string())));
}

#[test]
fn prepend_adds_before_a_line_feed() {
    assert_eq!(edit("prepend", "A", &[("replacement", t("X"))]), Ok(Edit::Text("X\nA".to_string())));
}

#[test]
fn replace_replaces_every_occurrence() {
    assert_eq!(
        edit("replace", "AAA", &[("search", t("A")), ("replacement", t("B"))]),
        Ok(Edit::Text("BBB".to_string()))
    );
    assert_eq!(edit("replace", "a-b-c", &[("search", t("-"))]), Ok(Edit::Text("abc".to_string())));
}

#[test]
fn insert_at_line_puts_a_line_before_the_numbered_one() {
    let with = |k: u64| edit("insert_at_line", "a\nb\nc", &[("line_number", n(k)), ("replacement", t("X"))]);
    assert_eq!(with(2), Ok(Edit::Text("a\nX\nb\nc".to_string())));
    assert_eq!(with(1), Ok(Edit::Text("X\na\nb\nc".to_string())));
    assert_eq!(with(0), Ok(Edit::Text("X\na\nb\nc".to_string())));
    assert_eq!(with(4), Ok(Edit::Text("a\nb\nc\nX".to_string())));
    assert_eq!(with(5), Ok(Edit::OutOfRange(5)));
}

#[test]
fn insert_at_line_drops_the_last_line_feed() {
    assert_eq!(
        edit("insert_at_line", "a\r\nb\n", &[("line_number", n(2)), ("replacement", t("X"))]),
        Ok(Edit::Text("a\nX\nb".to_string()))
    );
    assert_eq!(
        edit("insert_at_line", "", &[("line_number", n(1)), ("replacement", t("X"))]),
        Ok(Edit::Text("X".to_string()))
    );
}

#[test]
fn an_update_names_what_it_lacks() {
    assert_eq!(edit("replace", "A", &[("replacement", t("B"))]), Err(ToolError::MissingSearch));
    assert_eq!(edit("append", "A", &[]), Err(ToolError::MissingAppendText));
    assert_eq!(edit("prepend", "A", &[("replacement", n(1))]), Err(ToolError::MissingPrependText));
    assert_eq!(
        edit("insert_at_line", "A", &[("replacement", t("x"))]),
        Err(ToolError::MissingLineNumber)
    );
    assert_eq!(
        edit("insert_at_line", "A", &[("line_number", n(1))]),
        Err(ToolError::MissingInsertText)
    );
    assert_eq!(
        edit("insert_at_line", "A", &[("line_number", t("1")), ("replacement", t("x"))]),
        Err(ToolError::MissingLineNumber)
    );
    assert_eq!(edit("erase", "A", &[]), Ok(Edit::UnknownOperation));
}

#[test]
fn update_results_say_what_happened() {
    let tool = UpdateFileTool;
    let gone = tool.on_probe("a.txt", PathKind::Missing).unwrap();
    assert_eq!(gone, ToolResult::error("File does not exist: a.txt".to_string()));
    assert!(tool.on_probe("a.txt", PathKind::File).is_none());
    assert!(tool.on_probe("a.txt", PathKind::Directory).is_none());

    let unread = tool.on_read("append", &params(&[]), Err("denied".to_string())).unwrap();
    assert_eq!(unread, UpdateStep::Stop(ToolResult::error("Failed to read file: denied".to_string())));
    let unknown = tool.on_read("erase", &params(&[]), Ok("A".to_string())).unwrap();
    assert_eq!(unknown, UpdateStep::Stop(ToolResult::error("Unknown operation: erase".to_string())));
    let far = tool
        .on_read(
            "insert_at_line",
            &params(&[("line_number", n(9)), ("replacement", t("x"))]),
            Ok("A".to_string()),
        )
        .unwrap();
    assert_eq!(far, UpdateStep::Stop(ToolResult::error("Line number 9 is out of range".to_string())));
    let write = tool
        .on_read("append", &params(&[("replacement", t("é"))]), Ok("A".to_string()))
        .unwrap();
    assert_eq!(write, UpdateStep::Write { content: "A\né".to_string(), original_size: 1 });
    assert_eq!(tool.on_read("append", &params(&[]), Ok("A".to_string())), Err(ToolError::MissingAppendText));

    let done = tool.on_written("a.txt", "append", 1, 4, WriteOutcome::Written);
    assert!(done.success);
    assert_eq!(
        done.data,
        object(&[
            ("new_size", n(4)),
            ("operation", t("append")),
            ("original_size", n(1)),
            ("path", t("a.txt")),
        ])
    );
    assert_eq!(done.message.unwrap(), "Successfully updated a.txt using append operation");
    assert_eq!(done.modified_files, vec!["a.txt".to_string()]);
    let failed = tool.on_written("a.txt", "append", 1, 4, WriteOutcome::WriteFailed("full".to_string()));
    assert_eq!(failed, ToolResult::error("Failed to update file: full".to_string()));
}

#[test]
fn read_file_reports_content_and_size() {
    let tool = ReadFileTool;
    assert_eq!(tool.target(&params(&[("path", t("a.txt"))])).unwrap(), "a.txt");
    assert_eq!(tool.target(&params(&[("path", n(1))])), Err(ToolError::MissingPath));
    assert!(tool.on_probe("a.txt", PathKind::File).is_none());
    assert_eq!(
        tool.on_probe("a.txt", PathKind::Missing).unwrap(),
        ToolResult::error("File does not exist: a.txt".to_string())
    );
    assert_eq!(
        tool.on_probe("a.txt", PathKind::Directory).unwrap(),
        ToolResult::error("Path is not a file: a.txt".to_string())
    );
    let read = tool.on_read("a.txt", Ok("héllo".to_string()));
    assert!(read.success);
    assert_eq!(read.data, object(&[("content", t("héllo")), ("path", t("a.txt")), ("size", n(6))]));
    assert_eq!(read.message.unwrap(), "Successfully read 6 bytes from a.txt");
    assert!(read.modified_files.is_empty());
    assert_eq!(
        tool.on_read("a.txt", Err("not text".to_string())),
        ToolResult::error("Failed to read file: not text".to_string())
    );
}

#[test]
fn an_error_result_carries_its_message_as_data() {
    let e = ToolResult::error("oops".to_string());
    assert!(!e.success);
    assert_eq!(e.data, t("oops"));
    assert_eq!(e.message, Some("oops".to_string()));
    assert!(e.modified_files.is_empty());
    let s = ToolResult::success(n(1), None);
    assert!(s.success && s.message.is_none() && s.modified_files.is_empty());
    let f = ToolResult::success_with_files(n(1), Some("m".to_string()), vec!["p".to_string()]);
    assert_eq!(f.modified_files, vec!["p".to_string()]);
}

#[test]
fn write_file_plans_and_reports() {
    let tool = WriteFileTool;
    let plan = tool.plan(&params(&[("path", t("out/a.txt")), ("content", t("hi"))])).unwrap();
    assert_eq!(plan.path, "out/a.txt");
    assert_eq!(plan.content, "hi");
    assert_eq!(plan.parent, Some("out".to_string()));
    assert_eq!(tool.plan(&params(&[("content", t("hi"))])), Err(ToolError::MissingPath));
    assert_eq!(tool.plan(&params(&[("path", t("a"))])), Err(ToolError::MissingContent));
    let done = tool.on_written(&plan, WriteOutcome::Written);
    assert!(done.success);
    assert_eq!(done.data, object(&[("path", t("out/a.txt")), ("size", n(2))]));
    assert_eq!(done.message.unwrap(), "Successfully wrote 2 bytes to out/a.txt");
    assert_eq!(done.modified_files, vec!["out/a.txt".to_string()]);
    assert_eq!(
        tool.on_written(&plan, WriteOutcome::DirectoriesFailed("denied".to_string())),
        ToolResult::error("Failed to create directories: denied".to_string())
    );
    assert_eq!(
        tool.on_written(&plan, WriteOutcome::WriteFailed("full".to_string())),
        ToolResult::error("Failed to write file: full".to_string())
    );
}

#[test]
fn text_files_are_told_by_their_extension() {
    assert!(is_text_file("a.txt"));
    assert!(is_text_file("src/main.RS"));
    assert!(is_text_file("x/Dockerfile.dockerfile"));
    assert!(!is_text_file("a.exe"));
    assert!(!is_text_file("Makefile"));
    assert!(!is_text_file(".txt"));
    assert!(is_text_file("dir.txt/"));
}

#[test]
fn globs_match_whole_names() {
    assert!(glob_match("*.rs", "main.rs"));
    assert!(!glob_match("*.rs", "main.rss"));
    assert!(!glob_match("*.rs", "mainxrs"));
    assert!(glob_match("a?c.txt", "abc.txt"));
    assert!(!glob_match("a?c.txt", "ac.txt"));
    assert!(glob_match("*", ""));
    assert!(!glob_match("[", "["));
}

#[test]
fn a_search_falls_back_to_the_literal_pattern() {
    assert_eq!(search_regex("a.c", true), Ok("a.c".to_string()));
    assert_eq!(search_regex("a.c", false), Ok("(?i)a.c".to_string()));
    assert_eq!(search_regex("a(c", true), Ok("a\\(c".to_string()));
    assert_eq!(search_regex("a(c", false), Ok("(?i)a\\(c".to_string()));
}

#[test]
fn scanning_reports_lines_and_matches() {
    let mut results = Vec::new();
    scan_file("(?i)foo", "a.txt", "Foo bar foo\nnothing\nfoo\n", &mut results, 100);
    assert_eq!(
        results,
        vec![
            object(&[
                ("content", t("Foo bar foo")),
                ("file", t("a.txt")),
                ("line", n(1)),
                (
                    "matches",
                    JsonValue::Array(vec![
                        object(&[("end", n(3)), ("start", n(0)), ("text", t("Foo"))]),
                        object(&[("end", n(11)), ("start", n(8)), ("text", t("foo"))]),
                    ])
                ),
            ]),
            object(&[
                ("content", t("foo")),
                ("file", t("a.txt")),
                ("line", n(3)),
                (
                    "matches",
                    JsonValue::Array(vec![object(&[("end", n(3)), ("start", n(0)), ("text", t("foo"))])])
                ),
            ]),
        ]
    );
}

#[test]
fn scanning_stops_at_the_limit() {
    let mut results = Vec::new();
    scan_file("x", "a.txt", "x\nx\nx\n", &mut results, 2);
    assert_eq!(results.len(), 2);
    let mut results = Vec::new();
    scan_file("x", "a.txt", "x\nx\nx\n", &mut results, 0);
    assert_eq!(results.len(), 1);
    let mut results = Vec::new();
    scan_file("x(", "a.txt", "x(\n", &mut results, 5);
    assert!(results.is_empty());
}

#[test]
fn a_search_starts_with_defaults() {
    let tool = SearchFilesTool;
    match tool.start(&params(&[("pattern", t("todo"))])).unwrap() {
        SearchStart::Walk(plan) => {
            assert_eq!(plan.pattern, "todo");
            assert_eq!(plan.regex, "(?i)todo");
            assert_eq!(plan.directory, ".");
            assert_eq!(plan.file_pattern, None);
            assert_eq!(plan.max_results, 100);
            assert!(plan.accepts("src/a.rs", true));
            assert!(!plan.accepts("src/a.rs", false));
            assert!(!plan.accepts("src/a.bin", true));
        }
        SearchStart::Stop(_) => panic!("the search should start"),
    }
    match tool
        .start(&params(&[
            ("pattern", t("T")),
            ("directory", t("src")),
            ("file_pattern", t("*.rs")),
            ("case_sensitive", JsonValue::Bool(true)),
            ("max_results", n(3)),
        ]))
        .unwrap()
    {
        SearchStart::Walk(plan) => {
            assert_eq!(plan.regex, "T");
            assert_eq!(plan.directory, "src");
            assert_eq!(plan.max_results, 3);
            assert!(plan.accepts("src/a.rs", true));
            assert!(!plan.accepts("src/a.txt", true));
        }
        SearchStart::Stop(_) => panic!("the search should start"),
    }
    assert_eq!(tool.start(&params(&[])), Err(ToolError::MissingPattern));
}

#[test]
fn a_search_reports_what_it_found() {
    let tool = SearchFilesTool;
    let plan = match tool.start(&params(&[("pattern", t("x"))])).unwrap() {
        SearchStart::Walk(plan) => plan,
        SearchStart::Stop(_) => panic!("the search should start"),
    };
    let found = tool.finish(&plan, 3, vec![n(1), n(2)]);
    assert!(found.success);
    assert_eq!(
        found.data,
        object(&[
            ("directory", t(".")),
            ("files_searched", n(3)),
            ("matches_found", n(2)),
            ("pattern", t("x")),
            ("results", JsonValue::Array(vec![n(1), n(2)])),
        ])
    );
    assert_eq!(found.message.unwrap(), "Found 2 matches in 3 files");
}

fn entry(path: &str, name: &str, is_directory: bool, size: u64, modified: Option<u64>) -> EntryFacts {
    EntryFacts { path: path.to_string(), name: name.to_string(), is_directory, size, modified }
}

#[test]
fn a_listing_skips_hidden_entries() {
    let tool = ListDirectoryTool;
    let plan = tool.plan(&params(&[]));
    assert_eq!(plan.path, ".");
    assert!(!plan.recursive && !plan.show_hidden);
    let listed = tool.on_listed(
        &plan,
        Ok(vec![
            entry("./a.txt", "a.txt", false, 5, Some(1700000000)),
            entry("./.git", ".git", true, 0, None),
            entry("./src", "src", true, 64, None),
        ]),
    );
    assert!(listed.success);
    assert_eq!(
        listed.data,
        object(&[
            (
                "entries",
                JsonValue::Array(vec![
                    object(&[
                        ("modified", n(1700000000)),
                        ("name", t("a.txt")),
                        ("path", t("./a.txt")),
                        ("size", n(5)),
                        ("type", t("file")),
                    ]),
                    object(&[
                        ("modified", JsonValue::Null),
                        ("name", t("src")),
                        ("path", t("./src")),
                        ("size", n(64)),
                        ("type", t("directory")),
                    ]),
                ])
            ),
            ("entry_count", n(2)),
            ("path", t(".")),
            ("recursive", JsonValue::Bool(false)),
        ])
    );
    assert_eq!(listed.message.unwrap(), "Listed 2 entries in .");
}

#[test]
fn a_listing_shows_hidden_entries_when_asked() {
    let tool = ListDirectoryTool;
    let plan = tool.plan(&params(&[
        ("path", t("/srv")),
        ("recursive", JsonValue::Bool(true)),
        ("show_hidden", JsonValue::Bool(true)),
    ]));
    assert!(plan.recursive && plan.show_hidden);
    let listed = tool.on_listed(&plan, Ok(vec![entry("/srv/.x", ".x", false, 1, None)]));
    assert_eq!(listed.message.unwrap(), "Listed 1 entries in /srv");
    assert!(tool.is_skipped(".x", false, false));
    assert!(tool.is_skipped(".", false, false));
    assert!(!tool.is_skipped(".", true, false));
    assert!(tool.is_skipped(".x", true, false));
    assert!(!tool.is_skipped("", true, false));
    assert!(!tool.is_skipped("x.", false, false));
    assert_eq!(
        tool.on_listed(&plan, Err("denied".to_string())),
        ToolResult::error("Failed to read directory: denied".to_string())
    );
    assert_eq!(
        tool.on_probe("/srv", PathKind::Missing).unwrap(),
        ToolResult::error("Path does not exist: /srv".to_string())
    );
    assert_eq!(
        tool.on_probe("/srv", PathKind::File).unwrap(),
        ToolResult::error("Path is not a directory: /srv".to_string())
    );
    assert!(tool.on_probe("/srv", PathKind::Directory).is_none());
}

fn facts(kind: PathKind) -> FileFacts {
    FileFacts { kind, size: 12, readonly: true, created: None, modified: Some(5), accessed: Some(6) }
}

#[test]
fn file_info_reports_the_facts() {
    let tool = FileInfoTool;
    let info = tool.report(
        "docs/Read.Me.MD",
        InspectOutcome::Facts(facts(PathKind::File)),
        Some(Ok("a\nb\n".to_string())),
    );
    assert!(info.success);
    assert_eq!(
        info.data,
        object(&[
            ("accessed", n(6)),
            ("created", JsonValue::Null),
            ("extension", t("MD")),
            ("is_text", JsonValue::Bool(true)),
            ("line_count", n(2)),
            ("modified", n(5)),
            ("name", t("Read.Me.MD")),
            ("path", t("docs/Read.Me.MD")),
            ("readonly", JsonValue::Bool(true)),
            ("size", n(12)),
            ("type", t("file")),
        ])
    );
    assert_eq!(info.message.unwrap(), "Retrieved information for docs/Read.Me.MD");
}

#[test]
fn file_info_counts_lines_of_text_files_only() {
    let tool = FileInfoTool;
    assert!(tool.wants_lines("a.txt", &InspectOutcome::Facts(facts(PathKind::File))));
    assert!(!tool.wants_lines("a.bin", &InspectOutcome::Facts(facts(PathKind::File))));
    assert!(!tool.wants_lines("a.txt", &InspectOutcome::Facts(facts(PathKind::Directory))));
    assert!(!tool.wants_lines("a.txt", &InspectOutcome::Missing));
    let binary = tool.report("a.bin", InspectOutcome::Facts(facts(PathKind::File)), None);
    assert_eq!(
        binary.data,
        object(&[
            ("accessed", n(6)),
            ("created", JsonValue::Null),
            ("extension", t("bin")),
            ("is_text", JsonValue::Bool(false)),
            ("modified", n(5)),
            ("name", t("a.bin")),
            ("path", t("a.bin")),
            ("readonly", JsonValue::Bool(true)),
            ("size", n(12)),
            ("type", t("file")),
        ])
    );
    let unread = tool.report(
        "a.txt",
        InspectOutcome::Facts(facts(PathKind::File)),
        Some(Err("denied".to_string())),
    );
    assert_eq!(unread.data.get("line_count"), None);
    assert_eq!(unread.data.get("is_text"), Some(&JsonValue::Bool(true)));
    let dir = tool.report("src/", InspectOutcome::Facts(facts(PathKind::Directory)), None);
    assert_eq!(dir.data.get("type"), Some(&t("directory")));
    assert_eq!(dir.data.get("name"), Some(&t("src")));
    assert_eq!(dir.data.get("is_text"), None);
    let other = tool.report("/dev/null", InspectOutcome::Facts(facts(PathKind::Other)), None);
    assert_eq!(other.data.get("type"), Some(&t("other")));
    assert_eq!(
        tool.report("x", InspectOutcome::Missing, None),
        ToolResult::error("Path does not exist: x".to_string())
    );
    assert_eq!(
        tool.report("x", InspectOutcome::Failed("denied".to_string()), None),
        ToolResult::error("Failed to get metadata: denied".to_string())
    );
}

#[test]
fn tools_have_names_descriptions_and_schemas() {
    let read = Tool::ReadFile(ReadFileTool);
    assert_eq!(read.name(), "read_file");
    assert_eq!(read.description(), "Read the contents of a text file");
    assert_eq!(
        read.parameters(),
        object(&[
            (
                "properties",
                object(&[(
                    "path",
                    object(&[("description", t("Path to the file to read")), ("type", t("string"))])
                )])
            ),
            ("required", JsonValue::Array(vec![t("path")])),
            ("type", t("object")),
        ])
    );
    assert_eq!(Tool::WriteFile(WriteFileTool).name(), "write_file");
    assert_eq!(Tool::UpdateFile(UpdateFileTool).name(), "update_file");
    assert_eq!(Tool::SearchFiles(SearchFilesTool).name(), "search_files");
    assert_eq!(Tool::ListDirectory(ListDirectoryTool).name(), "list_directory");
    assert_eq!(Tool::FileInfo(FileInfoTool).name(), "file_info");
    let list = Tool::ListDirectory(ListDirectoryTool).parameters();
    assert_eq!(list.get("required"), None);
    let update = Tool::UpdateFile(UpdateFileTool).parameters();
    let operation = update.get("properties").unwrap().get("operation").unwrap();
    assert_eq!(
        operation.get("enum"),
        Some(&JsonValue::Array(vec![t("replace"), t("append"), t("prepend"), t("insert_at_line")]))
    );
}

#[test]
fn tool_errors_are_worded() {
    assert_eq!(ToolError::MissingPath.message(), "Missing or invalid 'path' parameter");
    assert_eq!(ToolError::MissingContent.message(), "Missing or invalid 'content' parameter");
    assert_eq!(ToolError::MissingOperation.message(), "Missing or invalid 'operation' parameter");
    assert_eq!(ToolError::MissingSearch.message(), "Missing 'search' parameter for replace operation");
    assert_eq!(
        ToolError::MissingInsertText.message(),
        "Missing 'replacement' parameter for insert_at_line operation"
    );
    assert_eq!(ToolError::MissingLineNumber.message(), "Missing or invalid 'line_number' parameter");
    assert_eq!(ToolError::MissingPattern.message(), "Missing or invalid 'pattern' parameter");
}
