use chatter::agent::{normalize_working_directory, Agent, AgentConfig};
use chatter::completion::CompletionStatus;
use chatter::executor::ExecErrorKind;
use chatter::json::JsonValue;
use chatter::run::{Action, Event};
use chatter::tools::{PathKind, ToolCall};

fn agent(enabled: bool) -> Agent {
    let mut config = AgentConfig::in_directory("project".to_string());
    config.enabled = enabled;
    Agent::new(config, "/home/me").unwrap()
}

fn call(tool: &str, parameters: &[(&str, &str)]) -> ToolCall {
    ToolCall {
        tool: tool.to_string(),
        parameters: parameters
            .iter()
            .map(|(k, v)| (k.to_string(), JsonValue::Text(v.to_string())))
            .collect(),
        thought: None,
        reasoning: None,
    }
}

#[test]
fn normalize_working_directory_converts_relative_path() {
    let normalized = normalize_working_directory(".", "/home/me");
    assert!(std::path::Path::new(&normalized).is_absolute());
    assert_eq!(normalized, "/home/me/.");
}

#[test]
fn normalize_working_directory_preserves_absolute_path() {
    let absolute = "/tmp";
    let normalized = normalize_working_directory(absolute, "/home/me");
    assert_eq!(normalized, absolute);
}

#[test]
fn the_default_configuration_is_cautious() {
    let config = AgentConfig::in_directory("/work".to_string());
    assert!(!config.enabled);
    assert!(config.auto_backup);
    assert!(!config.dry_run_mode);
    assert_eq!(config.max_file_size, 10 * 1024 * 1024);
    assert_eq!(config.working_directory, "/work");
    assert_eq!(
        config.allowed_extensions,
        vec![
            "txt", "md", "rs", "toml", "json", "yaml", "yml", "js", "ts", "py", "html", "css",
            "xml", "csv", "log"
        ]
    );
    assert_eq!(config.clone(), config);
}

#[test]
fn a_new_agent_works_below_the_current_directory() {
    let a = agent(true);
    assert_eq!(a.config().working_directory, "/home/me/project");
    assert_eq!(a.allowed_paths(), vec!["/home/me/project"]);
    assert_eq!(a.forbidden_paths().len(), 17);
    assert!(a.tool_history().is_empty());
    assert!(a.is_path_allowed("src/a.rs"));
    assert!(!a.is_path_allowed("/home/me/other"));
    let status = a.status();
    assert!(status.enabled);
    assert_eq!(status.tools_executed, 0);
    assert_eq!(status.working_directory, "/home/me/project");
    assert_eq!(status.available_tools.len(), 6);
}

#[test]
fn a_disabled_agent_does_nothing() {
    let mut a = agent(false);
    assert!(!a.is_enabled());
    assert!(a.detect_tool_calls("list the files").unwrap().is_empty());
    let e = a.execute_tool(call("read_file", &[("path", "a.txt")])).unwrap_err();
    assert_eq!(e.kind, ExecErrorKind::AgentDisabled);
    assert_eq!(e.message, "Agent mode is not enabled");
    assert!(a.tool_history().is_empty());
    assert!(!a.is_task_complete(&["Task completed".to_string()]));
    a.set_enabled(true);
    assert!(a.is_enabled());
    assert_eq!(a.detect_tool_calls("list the files").unwrap().len(), 1);
}

#[test]
fn every_call_is_remembered_whatever_becomes_of_it() {
    let mut a = agent(true);
    let step = a.execute_tool(call("nonexistent_tool", &[])).unwrap();
    assert!(matches!(step.action, Action::Finish(Err(_))));
    let step = a.execute_tool(call("read_file", &[("path", "/etc/passwd")])).unwrap();
    assert!(matches!(step.action, Action::Finish(Ok(_))));
    let step = a.execute_tool(call("read_file", &[("path", "a.txt")])).unwrap();
    assert!(matches!(step.action, Action::Probe { .. }));
    let names: Vec<&str> = a.tool_history().iter().map(|c| c.tool.as_str()).collect();
    assert_eq!(names, vec!["nonexistent_tool", "read_file", "read_file"]);
    assert_eq!(a.status().tools_executed, 3);
    let step = a.resume_tool(step.run, Event::Probed(PathKind::Missing));
    assert!(matches!(step.action, Action::Finish(Ok(_))));
    assert_eq!(a.tool_history().len(), 3);
    a.clear_history();
    assert!(a.tool_history().is_empty());
}

#[test]
fn a_tool_call_that_just_ended_dampens_the_score() {
    let mut a = agent(true);
    let messages = vec!["Task completed successfully!".to_string()];
    assert_eq!(a.completion_confidence(&messages), 80);
    assert_eq!(a.completion_status(&messages), CompletionStatus::Complete);
    assert!(a.is_task_complete(&messages));
    let _ = a.execute_tool(call("read_file", &[("path", "/etc/passwd")])).unwrap();
    let _ = a.execute_tool(call("write_file", &[("path", "/etc/passwd")])).unwrap();
    assert_eq!(a.completion_confidence(&messages), 65);
    assert_eq!(a.completion_status(&messages), CompletionStatus::LikelyComplete);
    assert!(a.completion_pattern_matches(&messages).is_empty());
    assert_eq!(
        a.completion_pattern_matches(&["documentation done".to_string()]),
        vec!["documentation: Task involves creating or updating documentation"]
    );
}

#[test]
fn added_paths_bind_what_is_run() {
    let mut a = agent(true);
    a.add_allowed_path("/srv/data".to_string());
    a.add_forbidden_path("/srv/data/private".to_string());
    assert!(a.is_path_allowed("/srv/data/a.txt"));
    assert!(!a.is_path_allowed("/srv/data/private/a.txt"));
    assert_eq!(a.allowed_paths().len(), 2);
    assert_eq!(a.forbidden_paths().len(), 18);
    let step = a.execute_tool(call("read_file", &[("path", "/srv/data/a.txt")])).unwrap();
    assert!(matches!(step.action, Action::Probe { .. }));
    let step = a.execute_tool(call("read_file", &[("path", "/srv/data/private/a.txt")])).unwrap();
    match step.action {
        Action::Finish(Ok(result)) => {
            assert!(!result.success);
            assert_eq!(
                result.message.unwrap(),
                "Safety check failed: Path '/srv/data/private/a.txt' is in a forbidden directory"
            );
        }
        other => panic!("expected a refusal, got {:?}", other),
    }
}

#[test]
fn a_forbidden_path_that_is_added_is_not_written() {
    let config = AgentConfig {
        enabled: true,
        allowed_extensions: vec!["txt".to_string(), "md".to_string()],
        max_file_size: 1024,
        working_directory: "/tmp/test".to_string(),
        auto_backup: false,
        dry_run_mode: false,
    };
    let mut a = Agent::new(config, "/tmp/test").unwrap();
    let write = || call("write_file", &[("path", "/tmp/test/secret/a.txt"), ("content", "hi")]);
    let step = a.execute_tool(write()).unwrap();
    assert!(matches!(step.action, Action::WriteText { .. }));
    a.add_forbidden_path("/tmp/test/secret".to_string());
    assert!(!a.is_path_allowed("/tmp/test/secret/a.txt"));
    let step = a.execute_tool(write()).unwrap();
    match step.action {
        Action::Finish(Ok(result)) => {
            assert!(!result.success);
            assert_eq!(
                result.message.unwrap(),
                "Safety check failed: Path '/tmp/test/secret/a.txt' is in a forbidden directory"
            );
        }
        other => panic!("expected a refusal, got {:?}", other),
    }
}

#[test]
fn a_new_configuration_rebuilds_the_managers() {
    let mut a = agent(true);
    a.add_allowed_path("/srv/data".to_string());
    let _ = a.execute_tool(call("list_directory", &[])).unwrap();
    let mut config = AgentConfig::in_directory("/elsewhere".to_string());
    config.enabled = true;
    config.dry_run_mode = true;
    a.update_config(config).unwrap();
    assert_eq!(a.config().working_directory, "/elsewhere");
    assert_eq!(a.allowed_paths(), vec!["/elsewhere"]);
    assert_eq!(a.tool_history().len(), 1);
    assert!(a.status().dry_run_mode);
    let step = a.execute_tool(call("read_file", &[("path", "/elsewhere/a.txt")])).unwrap();
    match step.action {
        Action::Finish(Ok(result)) => assert_eq!(result.data.get("dry_run"), Some(&JsonValue::Bool(true))),
        other => panic!("expected a preview, got {:?}", other),
    }
}

#[test]
fn the_tools_are_described() {
    let a = agent(true);
    assert_eq!(a.available_tools().len(), 6);
    let definitions = a.tool_definitions();
    assert_eq!(definitions[3].name, "search_files");
    let catalog = a.tool_catalog();
    assert_eq!(catalog.len(), 6);
    assert!(catalog[0].starts_with("**read_file**: Read the contents of a text file\n\nParameters:"));
    assert!(catalog[0].ends_with("\n  - path (string) *required*: Path to the file to read"));
}
