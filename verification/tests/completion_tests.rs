use chatter::completion::{CompletionDetector, CompletionPattern, CompletionStatus};
use chatter::tools::ToolCall;

fn call(tool: &str) -> ToolCall {
    ToolCall { tool: tool.to_string(), parameters: Vec::new(), thought: None, reasoning: None }
}

fn seconds(n: u128) -> Option<u128> {
    Some(n * 1_000_000_000)
}

#[test]
fn test_explicit_completion_signals() {
    let detector = CompletionDetector::new();
    let messages = vec![
        "I'm working on the task".to_string(),
        "Task completed successfully!".to_string(),
    ];

    assert!(detector.has_completion_signals(&messages));
}

#[test]
fn test_successful_execution_pattern() {
    let detector = CompletionDetector::new();
    let tool_history = vec![call("read_file"), call("write_file")];

    assert!(detector.has_successful_execution_pattern(&tool_history));
}

#[test]
fn test_completion_confidence() {
    let detector = CompletionDetector::new();
    let messages = vec!["Task completed successfully!".to_string()];
    let tool_history = vec![call("read_file"), call("write_file")];

    let confidence = detector.completion_confidence(&messages, &tool_history) as f64 / 100.0;
    assert!(confidence > 0.8);
}

#[test]
fn signals_are_sought_in_the_last_three_messages_only() {
    let detector = CompletionDetector::new();
    let messages = vec![
        "All done".to_string(),
        "one".to_string(),
        "two".to_string(),
        "three".to_string(),
    ];
    assert!(!detector.has_completion_signals(&messages));
    assert!(detector.has_completion_signals(&messages[..3]));
    assert!(!detector.has_completion_signals(&[]));
}

#[test]
fn signals_ignore_case() {
    let detector = CompletionDetector::new();
    assert!(detector.has_completion_signals(&["MISSION ACCOMPLISHED".to_string()]));
    assert!(!detector.has_completion_signals(&["mission impossible".to_string()]));
}

#[test]
fn undamped_confidence_with_signal_and_file_work_is_complete() {
    let detector = CompletionDetector::new();
    let messages = vec!["Task completed successfully!".to_string()];
    let history = vec![call("read_file"), call("write_file")];
    let score = detector.confidence_at(&messages, &history, seconds(6));
    assert_eq!(score, 100);
    assert_eq!(detector.status_at(&messages, &history, seconds(6)), CompletionStatus::Complete);
}

#[test]
fn recent_tool_call_halves_the_score() {
    let detector = CompletionDetector::new();
    let messages = vec!["Task completed successfully!".to_string()];
    let history = vec![call("read_file"), call("write_file")];
    assert_eq!(detector.confidence_at(&messages, &history, seconds(1)), 65);
    assert_eq!(
        detector.status_at(&messages, &history, seconds(1)),
        CompletionStatus::LikelyComplete
    );
}

#[test]
fn each_rule_adds_its_weight() {
    let detector = CompletionDetector::new();
    let nothing: Vec<String> = Vec::new();
    let signal = vec!["all done".to_string()];
    let two_reads = vec![call("read_file"), call("read_file")];
    assert_eq!(detector.confidence_at(&nothing, &[], None), 0);
    assert_eq!(detector.confidence_at(&signal, &[], None), 80);
    assert_eq!(detector.confidence_at(&nothing, &two_reads, None), 50);
    assert_eq!(detector.confidence_at(&nothing, &[], seconds(31)), 30);
    assert_eq!(detector.confidence_at(&nothing, &[], seconds(30)), 0);
    assert_eq!(detector.confidence_at(&nothing, &two_reads, seconds(31)), 80);
    assert_eq!(detector.confidence_at(&signal, &[], seconds(4)), 40);
    assert_eq!(detector.confidence_at(&signal, &[], seconds(5)), 80);
}

#[test]
fn a_matching_rule_adds_sixty() {
    let detector = CompletionDetector::new();
    let messages = vec!["The documentation is ready".to_string()];
    let history = vec![call("read_file"), call("write_file")];
    assert!(detector.matches_completion_patterns(&messages, &history));
    assert_eq!(detector.confidence_at(&messages, &history, seconds(10)), 100);
    let only_rule = vec![call("search_files"), call("read_file")];
    let reviewed = vec!["I reviewed the code".to_string()];
    assert_eq!(detector.confidence_at(&reviewed, &only_rule, seconds(10)), 60);
    assert_eq!(detector.confidence_at(&reviewed, &only_rule, seconds(2)), 30);
    assert_eq!(
        detector.status_at(&reviewed, &only_rule, seconds(2)),
        CompletionStatus::PossiblyComplete
    );
}

#[test]
fn status_goes_by_the_thresholds() {
    assert_eq!(CompletionStatus::from_score(100), CompletionStatus::Complete);
    assert_eq!(CompletionStatus::from_score(80), CompletionStatus::Complete);
    assert_eq!(CompletionStatus::from_score(79), CompletionStatus::LikelyComplete);
    assert_eq!(CompletionStatus::from_score(50), CompletionStatus::LikelyComplete);
    assert_eq!(CompletionStatus::from_score(49), CompletionStatus::PossiblyComplete);
    assert_eq!(CompletionStatus::from_score(30), CompletionStatus::PossiblyComplete);
    assert_eq!(CompletionStatus::from_score(29), CompletionStatus::InProgress);
    assert_eq!(CompletionStatus::from_score(0), CompletionStatus::InProgress);
}

#[test]
fn only_complete_and_likely_complete_count_as_done() {
    assert!(CompletionStatus::Complete.is_complete());
    assert!(CompletionStatus::LikelyComplete.is_complete());
    assert!(!CompletionStatus::PossiblyComplete.is_complete());
    assert!(!CompletionStatus::InProgress.is_complete());
}

#[test]
fn statuses_are_described() {
    assert_eq!(CompletionStatus::InProgress.description(), "Task is still in progress");
    assert_eq!(CompletionStatus::PossiblyComplete.description(), "Task might be complete");
    assert_eq!(CompletionStatus::LikelyComplete.description(), "Task is likely complete");
    assert_eq!(CompletionStatus::Complete.description(), "Task appears to be complete");
}

#[test]
fn execution_pattern_needs_a_reader_and_a_writer_or_two_file_tools() {
    let detector = CompletionDetector::new();
    assert!(!detector.has_successful_execution_pattern(&[]));
    assert!(!detector.has_successful_execution_pattern(&[call("read_file")]));
    assert!(detector.has_successful_execution_pattern(&[call("search_files"), call("update_file")]));
    assert!(detector.has_successful_execution_pattern(&[call("update_file"), call("update_file")]));
    assert!(!detector.has_successful_execution_pattern(&[
        call("search_files"),
        call("search_files"),
        call("list_directory"),
    ]));
    let old_work = vec![
        call("read_file"),
        call("write_file"),
        call("list_directory"),
        call("list_directory"),
        call("list_directory"),
        call("list_directory"),
        call("list_directory"),
    ];
    assert!(!detector.has_successful_execution_pattern(&old_work));
}

#[test]
fn a_pattern_holds_when_all_three_clauses_hold() {
    let pattern = CompletionPattern {
        name: "docs".to_string(),
        description: "writes docs".to_string(),
        message_patterns: vec!["readme".to_string()],
        tool_sequence: vec!["read_file".to_string(), "write_file".to_string()],
        min_tools: 2,
    };
    let said = vec!["Updated the README".to_string()];
    let history = vec![call("write_file"), call("read_file")];
    assert!(pattern.matches(&said, &history));
    assert!(!pattern.matches(&["nothing".to_string()], &history));
    assert!(!pattern.matches(&said, &[call("read_file"), call("read_file")]));
    assert!(!pattern.matches(&said, &[call("write_file")]));
    assert_eq!(pattern.label(), "docs: writes docs");
}

#[test]
fn a_pattern_without_texts_or_tools_asks_only_for_the_count() {
    let pattern = CompletionPattern {
        name: "any".to_string(),
        description: "anything".to_string(),
        message_patterns: Vec::new(),
        tool_sequence: Vec::new(),
        min_tools: 1,
    };
    assert!(!pattern.matches(&[], &[]));
    assert!(pattern.matches(&[], &[call("file_info")]));
}

#[test]
fn a_pattern_looks_at_the_last_ten_calls() {
    let pattern = CompletionPattern {
        name: "p".to_string(),
        description: "d".to_string(),
        message_patterns: Vec::new(),
        tool_sequence: vec!["read_file".to_string()],
        min_tools: 0,
    };
    let mut history = vec![call("read_file")];
    for _ in 0..9 {
        history.push(call("list_directory"));
    }
    assert!(pattern.matches(&[], &history));
    history.push(call("list_directory"));
    assert!(!pattern.matches(&[], &history));
}

#[test]
fn matching_patterns_are_named_in_order() {
    let detector = CompletionDetector::new();
    let messages = vec!["Summary and documentation written".to_string()];
    let history = vec![call("search_files"), call("read_file"), call("write_file")];
    assert_eq!(
        detector.matching_patterns(&messages, &history),
        vec![
            "summary_generation: Task involves creating a summary or report".to_string(),
            "documentation: Task involves creating or updating documentation".to_string(),
        ]
    );
    assert!(detector.matching_patterns(&[], &history).is_empty());
}

#[test]
fn there_are_four_built_in_patterns() {
    let patterns = CompletionDetector::default_patterns();
    let names: Vec<&str> = patterns.iter().map(|p| p.name.as_str()).collect();
    assert_eq!(
        names,
        vec!["summary_generation", "file_organization", "documentation", "code_analysis"]
    );
    assert_eq!(patterns[1].min_tools, 3);
    assert_eq!(patterns[3].tool_sequence, vec!["search_files".to_string(), "read_file".to_string()]);
}

#[test]
fn a_fresh_detector_has_seen_no_tool_call() {
    let mut detector = CompletionDetector::new();
    assert!(!detector.has_tool_inactivity());
    assert_eq!(detector.elapsed(), None);
    detector.record_tool_execution();
    assert!(detector.elapsed().is_some());
    assert!(!detector.has_tool_inactivity());
    let signal = vec!["all done".to_string()];
    assert_eq!(detector.completion_confidence(&signal, &[]), 40);
    assert_eq!(detector.completion_status(&signal, &[]), CompletionStatus::PossiblyComplete);
}

#[test]
fn a_pattern_matches_whatever_its_own_case() {
    let pattern = CompletionPattern {
        name: "docs".to_string(),
        description: "writes docs".to_string(),
        message_patterns: vec!["README Updated".to_string()],
        tool_sequence: Vec::new(),
        min_tools: 0,
    };
    assert!(pattern.matches(&["I have now readme updated.".to_string()], &[]));
    assert!(pattern.matches(&["The ReadMe UPDATED today".to_string()], &[]));
    assert!(!pattern.matches(&["The readme was updated".to_string()], &[]));
}
