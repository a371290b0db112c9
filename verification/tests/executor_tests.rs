use chatter::agent::AgentConfig;
use chatter::executor::{AgentExecutor, ExecError, ExecErrorKind, ToolInfo};
use chatter::json::{JsonNumber, JsonValue};
use chatter::run::{resume, Action, Event, Run, Stage, Step};
use chatter::safety::SafetyManager;
use chatter::tools::{
    EntryFacts, FileFacts, InspectOutcome, PathKind, ReadFileTool, Tool, ToolCall, ToolResult,
    WalkedEntry, WriteOutcome,
};
use std::collections::BTreeMap;

fn config(auto_backup: bool, dry_run_mode: bool) -> AgentConfig {
    AgentConfig {
        enabled: true,
        allowed_extensions: vec!["txt".to_string(), "md".to_string(), "rs".to_string()],
        max_file_size: 1024,
        working_directory: "/work".to_string(),
        auto_backup,
        dry_run_mode,
    }
}

fn executor(auto_backup: bool, dry_run_mode: bool) -> AgentExecutor {
    let config = config(auto_backup, dry_run_mode);
    let safety = SafetyManager::new(&config, "/work").unwrap();
    AgentExecutor::new(config, safety).unwrap()
}

fn t(s: &str) -> JsonValue {
    JsonValue::Text(s.to_string())
}

fn n(k: u64) -> JsonValue {
    JsonValue::Number(JsonNumber::Unsigned(k))
}

fn call(tool: &str, parameters: &[(&str, JsonValue)]) -> ToolCall {
    ToolCall {
        tool: tool.to_string(),
        parameters: parameters.iter().map(|(k, v)| (k.to_string(), v.clone())).collect(),
        thought: None,
        reasoning: None,
    }
}

/// Files by path; a path that is a key with value `None` is a directory.
struct Files {
    entries: BTreeMap<String, Option<String>>,
    asked: Vec<String>,
}

impl Files {
    fn new(list: &[(&str, Option<&str>)]) -> Files {
        Files {
            entries: list.iter().map(|(p, c)| (p.to_string(), c.map(|s| s.to_string()))).collect(),
            asked: Vec::new(),
        }
    }

    fn kind(&self, path: &str) -> PathKind {
        match self.entries.get(path) {
            None => PathKind::Missing,
            Some(None) => PathKind::Directory,
            Some(Some(_)) => PathKind::File,
        }
    }

    fn read(&self, path: &str) -> Result<String, String> {
        match self.entries.get(path) {
            Some(Some(content)) => Ok(content.clone()),
            Some(None) => Err("Is a directory".to_string()),
            None => Err("No such file".to_string()),
        }
    }

    fn below(&self, directory: &str) -> Vec<(String, bool)> {
        let prefix = format!("{}/", directory.trim_end_matches('/'));
        self.entries
            .iter()
            .filter(|(p, _)| p.starts_with(&prefix))
            .map(|(p, c)| (p.clone(), c.is_some()))
            .collect()
    }

    fn answer(&mut self, action: Action) -> Event {
        match action {
            Action::Probe { path } => {
                self.asked.push(format!("probe {}", path));
                Event::Probed(self.kind(&path))
            }
            Action::ReadText { path } => {
                self.asked.push(format!("read {}", path));
                Event::Text(self.read(&path))
            }
            Action::WriteText { path, content, parent } => {
                self.asked.push(format!("write {}", path));
                if let Some(dir) = parent {
                    if !dir.is_empty() && self.kind(&dir) == PathKind::Missing {
                        self.entries.insert(dir, None);
                    }
                }
                self.entries.insert(path, Some(content));
                Event::Written(WriteOutcome::Written)
            }
            Action::CopyFile { from, to } => {
                self.asked.push(format!("copy {}", from));
                match self.read(&from) {
                    Ok(content) => {
                        self.entries.insert(to, Some(content));
                        Event::Copied(Ok(()))
                    }
                    Err(e) => Event::Copied(Err(e)),
                }
            }
            Action::Inspect { path } => {
                self.asked.push(format!("inspect {}", path));
                Event::Inspected(match self.entries.get(&path) {
                    None => InspectOutcome::Missing,
                    Some(content) => InspectOutcome::Facts(FileFacts {
                        kind: if content.is_some() { PathKind::File } else { PathKind::Directory },
                        size: content.as_ref().map(|c| c.len() as u64).unwrap_or(0),
                        readonly: false,
                        created: None,
                        modified: Some(7),
                        accessed: None,
                    }),
                })
            }
            Action::List { path, recursive: _ } => {
                self.asked.push(format!("list {}", path));
                Event::Listed(Ok(self
                    .below(&path)
                    .into_iter()
                    .map(|(p, is_file)| EntryFacts {
                        name: p.rsplit('/').next().unwrap().to_string(),
                        path: p,
                        is_directory: !is_file,
                        size: 0,
                        modified: None,
                    })
                    .collect()))
            }
            Action::Walk { directory } => {
                self.asked.push(format!("walk {}", directory));
                Event::Walked(
                    self.below(&directory)
                        .into_iter()
                        .map(|(path, is_file)| WalkedEntry { path, is_file })
                        .collect(),
                )
            }
            Action::Finish(_) => unreachable!(),
        }
    }

    fn drive(&mut self, mut step: Step) -> Result<ToolResult, ExecError> {
        loop {
            let Step { run, action } = step;
            if let Action::Finish(outcome) = action {
                assert_eq!(run.stage, Stage::Finished);
                return outcome;
            }
            let event = self.answer(action);
            step = resume(run, event);
        }
    }
}

#[test]
fn an_unknown_tool_is_an_error() {
    let step = executor(true, false).execute(call("nonexistent_tool", &[]));
    match step.action {
        Action::Finish(Err(e)) => {
            assert_eq!(e.kind, ExecErrorKind::UnknownTool);
            assert_eq!(e.message, "Unknown tool: nonexistent_tool");
        }
        other => panic!("expected an error, got {:?}", other),
    }
}

#[test]
fn a_refused_call_is_a_failure_for_a_result() {
    let mut files = Files::new(&[]);
    let step = executor(true, false).execute(call("read_file", &[("path", t("/etc/passwd"))]));
    let result = files.drive(step).unwrap();
    assert!(!result.success);
    assert_eq!(
        result.message.unwrap(),
        "Safety check failed: Path '/etc/passwd' is outside allowed directories"
    );
    assert!(files.asked.is_empty());
}

#[test]
fn a_dry_run_changes_nothing() {
    let mut files = Files::new(&[("/work/a.txt", Some("old"))]);
    let step = executor(true, true).execute(call(
        "write_file",
        &[("path", t("/work/a.txt")), ("content", t("new"))],
    ));
    let result = files.drive(step).unwrap();
    assert!(result.success);
    assert_eq!(result.data.get("dry_run"), Some(&JsonValue::Bool(true)));
    assert_eq!(result.data.get("tool"), Some(&t("write_file")));
    assert_eq!(
        result.data.get("description"),
        Some(&t("Write content to a file (creates or overwrites)"))
    );
    assert_eq!(result.data.get("note"), Some(&t("This is a preview - no actual changes were made")));
    assert_eq!(
        result.data.get("parameters"),
        Some(&JsonValue::Object(vec![
            ("path".to_string(), t("/work/a.txt")),
            ("content".to_string(), t("new")),
        ]))
    );
    assert_eq!(
        result.message.unwrap(),
        "DRY RUN: Would execute write_file with given parameters"
    );
    assert!(files.asked.is_empty());
    assert_eq!(files.read("/work/a.txt").unwrap(), "old");

    let mut empty = Files::new(&[]);
    let step = executor(true, true).execute(call(
        "write_file",
        &[("path", t("/work/b.txt")), ("content", t("new"))],
    ));
    assert!(empty.drive(step).unwrap().success);
    assert_eq!(empty.kind("/work/b.txt"), PathKind::Missing);
}

#[test]
fn a_file_is_copied_before_it_is_overwritten() {
    let mut files = Files::new(&[("/work", None), ("/work/a.txt", Some("old"))]);
    let step = executor(true, false).execute(call(
        "write_file",
        &[("path", t("/work/a.txt")), ("content", t("new content"))],
    ));
    let result = files.drive(step).unwrap();
    assert!(result.success);
    assert_eq!(files.asked, vec!["probe /work/a.txt", "copy /work/a.txt", "write /work/a.txt"]);
    assert_eq!(files.read("/work/a.txt").unwrap(), "new content");
    let backups: Vec<(&String, &Option<String>)> =
        files.entries.iter().filter(|(p, _)| p.starts_with("/work/a.txt.backup_")).collect();
    assert_eq!(backups.len(), 1);
    let (place, content) = backups[0];
    assert_eq!(content.as_deref(), Some("old"));
    let stamp = &place["/work/a.txt.backup_".len()..];
    assert_eq!(stamp.len(), 15);
    assert!(stamp.chars().enumerate().all(|(i, c)| if i == 8 { c == '_' } else { c.is_ascii_digit() }));
    assert_eq!(result.data.get("backup_created"), Some(&t(place)));
    assert_eq!(result.data.get("size"), Some(&n(11)));
    assert_eq!(result.modified_files, vec!["/work/a.txt".to_string()]);
}

#[test]
fn a_new_file_needs_no_copy() {
    let mut files = Files::new(&[("/work", None)]);
    let step = executor(true, false).execute(call(
        "write_file",
        &[("path", t("/work/sub/a.txt")), ("content", t("new"))],
    ));
    let result = files.drive(step).unwrap();
    assert!(result.success);
    assert_eq!(files.asked, vec!["probe /work/sub/a.txt", "write /work/sub/a.txt"]);
    assert_eq!(result.data.get("backup_created"), None);
    assert_eq!(files.kind("/work/sub"), PathKind::Directory);
    assert_eq!(files.entries.len(), 3);
}

#[test]
fn without_backups_nothing_is_copied() {
    let mut files = Files::new(&[("/work", None), ("/work/a.txt", Some("old"))]);
    let step = executor(false, false).execute(call(
        "write_file",
        &[("path", t("/work/a.txt")), ("content", t("new"))],
    ));
    assert!(files.drive(step).unwrap().success);
    assert_eq!(files.asked, vec!["write /work/a.txt"]);
    assert_eq!(files.entries.len(), 2);
    assert_eq!(files.read("/work/a.txt").unwrap(), "new");
}

#[test]
fn a_failed_copy_ends_the_run_with_an_error() {
    let exec = executor(true, false);
    let step = exec.execute(call("write_file", &[("path", t("/work/a.txt")), ("content", t("new"))]));
    let step = resume(step.run, Event::Probed(PathKind::File));
    assert!(matches!(step.action, Action::CopyFile { .. }));
    let step = resume(step.run, Event::Copied(Err("disk full".to_string())));
    match step.action {
        Action::Finish(Err(e)) => {
            assert_eq!(e.kind, ExecErrorKind::BackupFailed);
            assert_eq!(e.message, "Failed to create backup: disk full");
        }
        other => panic!("expected an error, got {:?}", other),
    }
}

#[test]
fn backup_paths_lie_beside_the_file() {
    let exec = executor(true, false);
    assert_eq!(
        exec.generate_backup_path("dir/a.txt", "20240131_235959").unwrap(),
        "dir/a.txt.backup_20240131_235959"
    );
    assert_eq!(exec.generate_backup_path("a.txt", "S").unwrap(), "a.txt.backup_S");
    assert_eq!(exec.generate_backup_path("/a.txt", "S").unwrap(), "/a.txt.backup_S");
    let e = exec.generate_backup_path("dir/..", "S").unwrap_err();
    assert_eq!(e.kind, ExecErrorKind::InvalidFileName);
    assert_eq!(e.message, "Invalid file name");
}

#[test]
fn update_file_reads_then_writes() {
    let mut files = Files::new(&[("/work/a.txt", Some("A"))]);
    let step = executor(true, false).execute(call(
        "update_file",
        &[("path", t("/work/a.txt")), ("operation", t("append")), ("replacement", t("X"))],
    ));
    let result = files.drive(step).unwrap();
    assert!(result.success);
    assert_eq!(
        files.asked,
        vec![
            "probe /work/a.txt",
            "copy /work/a.txt",
            "probe /work/a.txt",
            "read /work/a.txt",
            "write /work/a.txt"
        ]
    );
    assert_eq!(files.read("/work/a.txt").unwrap(), "A\nX");
    assert_eq!(result.data.get("original_size"), Some(&n(1)));
    assert_eq!(result.data.get("new_size"), Some(&n(3)));
    assert!(result.data.get("backup_created").is_some());
}

#[test]
fn update_file_needs_the_file() {
    let mut files = Files::new(&[]);
    let step = executor(true, false).execute(call(
        "update_file",
        &[("path", t("/work/a.txt")), ("operation", t("append")), ("replacement", t("X"))],
    ));
    let result = files.drive(step).unwrap();
    assert_eq!(result, ToolResult::error("File does not exist: /work/a.txt".to_string()));
    assert_eq!(files.kind("/work/a.txt"), PathKind::Missing);
}

#[test]
fn a_tool_that_lacks_a_parameter_fails_softly() {
    let mut files = Files::new(&[("/work/a.txt", Some("A"))]);
    let step = executor(false, false).execute(call(
        "update_file",
        &[("path", t("/work/a.txt")), ("operation", t("replace"))],
    ));
    let result = files.drive(step).unwrap();
    assert_eq!(
        result,
        ToolResult::error(
            "Tool execution failed: Missing 'search' parameter for replace operation".to_string()
        )
    );
    assert_eq!(files.read("/work/a.txt").unwrap(), "A");
    let step = executor(false, false).execute(call("search_files", &[]));
    assert_eq!(
        files.drive(step).unwrap(),
        ToolResult::error("Tool execution failed: Missing or invalid 'pattern' parameter".to_string())
    );
}

#[test]
fn read_file_runs_to_its_result() {
    let mut files = Files::new(&[("/work/a.txt", Some("hello")), ("/work/sub", None)]);
    let exec = executor(true, false);
    let result = files.drive(exec.execute(call("read_file", &[("path", t("/work/a.txt"))]))).unwrap();
    assert_eq!(result.data.get("content"), Some(&t("hello")));
    assert_eq!(files.asked, vec!["probe /work/a.txt", "read /work/a.txt"]);
    let result = files.drive(exec.execute(call("read_file", &[("path", t("/work/b.txt"))]))).unwrap();
    assert_eq!(result, ToolResult::error("File does not exist: /work/b.txt".to_string()));
    let result = files.drive(exec.execute(call("read_file", &[("path", t("/work/sub"))]))).unwrap();
    assert_eq!(result, ToolResult::error("Path is not a file: /work/sub".to_string()));
}

#[test]
fn a_search_reads_text_files_until_it_has_enough() {
    let mut files = Files::new(&[
        ("/work", None),
        ("/work/a.rs", Some("fn main() {}\n// TODO one\n")),
        ("/work/b.bin", Some("TODO binary")),
        ("/work/c.txt", Some("todo two\ntodo three\n")),
        ("/work/d.txt", Some("todo four\n")),
    ]);
    let exec = executor(true, false);
    let step = exec.execute(call(
        "search_files",
        &[("pattern", t("todo")), ("directory", t("/work")), ("max_results", n(2))],
    ));
    let result = files.drive(step).unwrap();
    assert!(result.success);
    assert_eq!(files.asked, vec!["walk /work", "read /work/a.rs", "read /work/c.txt"]);
    assert_eq!(result.data.get("files_searched"), Some(&n(2)));
    assert_eq!(result.data.get("matches_found"), Some(&n(2)));
    assert_eq!(result.message.unwrap(), "Found 2 matches in 2 files");
    match result.data.get("results") {
        Some(JsonValue::Array(results)) => {
            assert_eq!(results[0].get("file"), Some(&t("/work/a.rs")));
            assert_eq!(results[0].get("line"), Some(&n(2)));
            assert_eq!(results[1].get("file"), Some(&t("/work/c.txt")));
            assert_eq!(results[1].get("content"), Some(&t("todo two")));
        }
        other => panic!("expected results, got {:?}", other),
    }
}

#[test]
fn a_search_with_a_glob_skips_other_names() {
    let mut files = Files::new(&[
        ("/work/a.rs", Some("x")),
        ("/work/c.txt", Some("x")),
    ]);
    let step = executor(true, false).execute(call(
        "search_files",
        &[("pattern", t("x")), ("directory", t("/work")), ("file_pattern", t("*.txt"))],
    ));
    let result = files.drive(step).unwrap();
    assert_eq!(files.asked, vec!["walk /work", "read /work/c.txt"]);
    assert_eq!(result.message.unwrap(), "Found 1 matches in 1 files");
}

#[test]
fn a_search_of_nothing_finds_nothing() {
    let mut files = Files::new(&[]);
    let step = executor(true, false).execute(call("search_files", &[("pattern", t("x"))]));
    let result = files.drive(step).unwrap();
    assert_eq!(result.message.unwrap(), "Found 0 matches in 0 files");
    assert_eq!(result.data.get("directory"), Some(&t(".")));
}

#[test]
fn list_directory_runs_to_its_result() {
    let mut files = Files::new(&[("/work", None), ("/work/a.txt", Some("x")), ("/work/.git", None)]);
    let exec = executor(true, false);
    let result = files.drive(exec.execute(call("list_directory", &[("path", t("/work"))]))).unwrap();
    assert_eq!(files.asked, vec!["probe /work", "list /work"]);
    assert_eq!(result.data.get("entry_count"), Some(&n(1)));
    let result = files.drive(exec.execute(call("list_directory", &[("path", t("/nowhere"))]))).unwrap();
    assert_eq!(result, ToolResult::error("Path does not exist: /nowhere".to_string()));
}

#[test]
fn file_info_runs_to_its_result() {
    let mut files = Files::new(&[("/work/a.txt", Some("1\n2\n3")), ("/work/b.rs", Some("x"))]);
    let exec = executor(true, false);
    let result = files.drive(exec.execute(call("file_info", &[("path", t("/work/a.txt"))]))).unwrap();
    assert_eq!(files.asked, vec!["inspect /work/a.txt", "read /work/a.txt"]);
    assert_eq!(result.data.get("line_count"), Some(&n(3)));
    assert_eq!(result.data.get("size"), Some(&n(5)));
    let result = files.drive(exec.execute(call("file_info", &[("path", t("/work/none.txt"))]))).unwrap();
    assert_eq!(result, ToolResult::error("Path does not exist: /work/none.txt".to_string()));
}

#[test]
fn an_answer_that_was_not_asked_for_is_an_error() {
    let exec = executor(true, false);
    let step = exec.execute(call("read_file", &[("path", t("/work/a.txt"))]));
    let step = resume(step.run, Event::Copied(Ok(())));
    match step.action {
        Action::Finish(Err(e)) => {
            assert_eq!(e.kind, ExecErrorKind::UnexpectedEvent);
            assert_eq!(e.message, "Unexpected event");
        }
        other => panic!("expected an error, got {:?}", other),
    }
    let step = resume(Run { backup: None, stage: Stage::Finished }, Event::Probed(PathKind::File));
    assert!(matches!(step.action, Action::Finish(Err(_))));
}

#[test]
fn the_six_tools_are_registered_once() {
    let mut exec = executor(true, false);
    assert_eq!(
        exec.available_tools(),
        vec!["read_file", "write_file", "update_file", "search_files", "list_directory", "file_info"]
    );
    let e = exec.register_tool(Tool::ReadFile(ReadFileTool)).unwrap_err();
    assert_eq!(e.kind, ExecErrorKind::DuplicateTool);
    assert_eq!(e.message, "Tool 'read_file' is already registered");
    assert_eq!(exec.available_tools().len(), 6);
    assert!(exec.is_file_modification_tool("write_file"));
    assert!(exec.is_file_modification_tool("update_file"));
    assert!(!exec.is_file_modification_tool("read_file"));
    assert_eq!(exec.tool_named("file_info").unwrap().name(), "file_info");
    assert!(exec.tool_named("nope").is_none());
}

#[test]
fn tool_info_is_that_of_the_tool() {
    let exec = executor(true, false);
    let info = exec.get_tool_info("read_file").unwrap();
    assert_eq!(info.name, "read_file");
    assert_eq!(info.description, "Read the contents of a text file");
    assert_eq!(info.parameters, Tool::ReadFile(ReadFileTool).parameters());
    assert!(exec.get_tool_info("nope").is_none());
    let all = exec.get_all_tool_info();
    assert_eq!(all.len(), 6);
    assert_eq!(all[5].name, "file_info");
}

#[test]
fn a_tool_is_described_with_its_parameters() {
    let exec = executor(true, false);
    assert_eq!(
        exec.get_tool_info("write_file").unwrap().format_description(),
        "**write_file**: Write content to a file (creates or overwrites)\n\nParameters:\
         \n  - content (string) *required*: Content to write to the file\
         \n  - path (string) *required*: Path to the file to write"
    );
    assert_eq!(
        exec.get_tool_info("list_directory").unwrap().format_description(),
        "**list_directory**: List files and directories in a given path\n\nParameters:\
         \n  - path (string): Directory path to list (default: current directory)\
         \n  - recursive (boolean): Whether to list recursively (default: false)\
         \n  - show_hidden (boolean): Whether to show hidden files (default: false)"
    );
    let bare = ToolInfo {
        name: "x".to_string(),
        description: "does x".to_string(),
        parameters: JsonValue::Null,
    };
    assert_eq!(bare.format_description(), "**x**: does x");
    let odd = ToolInfo {
        name: "x".to_string(),
        description: "does x".to_string(),
        parameters: JsonValue::Object(vec![(
            "properties".to_string(),
            JsonValue::Object(vec![("p".to_string(), JsonValue::Null)]),
        )]),
    };
    assert_eq!(
        odd.format_description(),
        "**x**: does x\n\nParameters:\n  - p (unknown): No description"
    );
}

#[test]
fn calls_are_held_against_the_schema() {
    let exec = executor(true, false);
    assert!(exec
        .validate_tool_call(&call("write_file", &[("path", t("a")), ("content", t("b"))]))
        .is_ok());
    let e = exec.validate_tool_call(&call("write_file", &[("content", t("b"))])).unwrap_err();
    assert_eq!(e.kind, ExecErrorKind::MissingParameter);
    assert_eq!(e.message, "Missing required parameter: path");
    let e = exec
        .validate_tool_call(&call("write_file", &[("path", t("a")), ("content", n(1))]))
        .unwrap_err();
    assert_eq!(e.kind, ExecErrorKind::WrongParameterType);
    assert_eq!(e.message, "Parameter 'content' has type 'number' but expected 'string'");
    assert!(exec
        .validate_tool_call(&call(
            "update_file",
            &[("path", t("a")), ("operation", t("x")), ("line_number", n(3)), ("extra", n(1))]
        ))
        .is_ok());
    let e = exec
        .validate_tool_call(&call(
            "search_files",
            &[("pattern", t("a")), ("case_sensitive", JsonValue::Null)],
        ))
        .unwrap_err();
    assert_eq!(e.message, "Parameter 'case_sensitive' has type 'null' but expected 'boolean'");
    assert!(exec.validate_tool_call(&call("list_directory", &[])).is_ok());
    let e = exec.validate_tool_call(&call("nope", &[])).unwrap_err();
    assert_eq!(e.kind, ExecErrorKind::UnknownTool);
    assert_eq!(e.message, "Unknown tool: nope");
}
