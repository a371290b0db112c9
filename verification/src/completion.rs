//! Judging from the conversation and the tool calls whether a task is done.
//!
//! The judgement is a score in hundredths, from 0 to 100, and a status in
//! four steps. It is advice: nothing here changes any state but the time of
//! the last tool call.

use crate::text::{
    chars_of, concat3, contains, lowercase_chars, lowercase_of, nested, spec_contains,
    spec_contains_any, str_eq,
};
use crate::tools::{strings_view, ToolCall};
use vstd::prelude::*;

verus! {

/// A moment on the monotonic clock: `std::time::Instant`, of which nothing
/// is known here.
#[verifier::external_type_specification]
#[verifier::external_body]
pub struct ExInstant(std::time::Instant);

/// The present moment, from `Instant::now`.
#[verifier::external_body]
fn now() -> std::time::Instant {
    std::time::Instant::now()
}

/// The time since `moment` in nanoseconds, from `Instant::elapsed`. It
/// differs from one call to the next.
#[verifier::external_body]
fn nanos_since(moment: &std::time::Instant) -> u128 {
    moment.elapsed().as_nanos()
}

/// Nanoseconds in a second.
pub const NANOS_PER_SECOND: u128 = 1_000_000_000;

/// How long after a tool call the dampening of the score lasts, in seconds.
pub const RECENT_SECONDS: u64 = 5;

/// The last `n` items of a sequence, or all of it where it has fewer.
pub open spec fn last_items<T>(s: Seq<T>, n: int) -> Seq<T> {
    if s.len() <= n {
        s
    } else {
        s.skip(s.len() - n)
    }
}

/// The names of the tools of the calls.
pub open spec fn tool_names(history: Seq<ToolCall>) -> Seq<Seq<char>> {
    Seq::new(history.len(), |i: int| history[i].tool@)
}

/// The phrases that announce that a task is done.
pub open spec fn spec_completion_phrases() -> Seq<Seq<char>> {
    Seq::empty().push("task completed"@).push("task complete"@).push(
        "finished successfully"@,
    ).push("done with"@).push("completed successfully"@).push("task is finished"@).push(
        "work is complete"@,
    ).push("all done"@).push("successfully completed"@).push("task accomplished"@).push(
        "objective achieved"@,
    ).push("mission accomplished"@).push("finished the task"@).push(
        "completed the request"@,
    ).push("task has been completed"@)
}

/// Adds a text at the end of a list.
pub fn add_text(list: &mut Vec<String>, s: &str)
    ensures
        strings_view(final(list)@) == strings_view(old(list)@).push(s@),
{
    let ghost before = list@;
    list.push(s.to_owned());
    assert(strings_view(list@) =~= strings_view(before).push(s@));
}

/// An empty list of texts.
pub fn no_texts() -> (list: Vec<String>)
    ensures
        strings_view(list@) == Seq::<Seq<char>>::empty(),
{
    let list: Vec<String> = Vec::new();
    assert(strings_view(list@) =~= Seq::<Seq<char>>::empty());
    list
}

/// The phrases that announce that a task is done.
pub fn completion_phrases() -> (list: Vec<String>)
    ensures
        strings_view(list@) == spec_completion_phrases(),
{
    let mut list = no_texts();
    add_text(&mut list, "task completed");
    add_text(&mut list, "task complete");
    add_text(&mut list, "finished successfully");
    add_text(&mut list, "done with");
    add_text(&mut list, "completed successfully");
    add_text(&mut list, "task is finished");
    add_text(&mut list, "work is complete");
    add_text(&mut list, "all done");
    add_text(&mut list, "successfully completed");
    add_text(&mut list, "task accomplished");
    add_text(&mut list, "objective achieved");
    add_text(&mut list, "mission accomplished");
    add_text(&mut list, "finished the task");
    add_text(&mut list, "completed the request");
    add_text(&mut list, "task has been completed");
    list
}

/// The texts of a list, each in lower case.
pub open spec fn lowered(list: Seq<Seq<char>>) -> Seq<Seq<char>> {
    Seq::new(list.len(), |j: int| lowercase_of(list[j]))
}

/// Some message holds some text of the list, whatever the case of either:
/// the message in lower case holds the text in lower case.
pub open spec fn any_message_holds(messages: Seq<Seq<char>>, list: Seq<Seq<char>>) -> bool {
    exists|i: int|
        0 <= i < messages.len() && spec_contains_any(
            lowercase_of(#[trigger] messages[i]),
            lowered(list),
        )
}

/// One of the last three messages holds, whatever its case, a phrase that
/// announces that the task is done.
pub open spec fn spec_has_completion_signals(messages: Seq<Seq<char>>) -> bool {
    any_message_holds(last_items(messages, 3), spec_completion_phrases())
}

/// Whether a name is that of a tool that reads: `read_file` or
/// `search_files`.
pub open spec fn is_read_tool(name: Seq<char>) -> bool {
    name == "read_file"@ || name == "search_files"@
}

/// Whether a name is that of a tool that writes: `write_file` or
/// `update_file`.
pub open spec fn is_write_tool(name: Seq<char>) -> bool {
    name == "write_file"@ || name == "update_file"@
}

/// Whether a name is that of a tool that reads or writes one file.
pub open spec fn is_file_tool(name: Seq<char>) -> bool {
    name == "write_file"@ || name == "update_file"@ || name == "read_file"@
}

/// How many of the names are those of tools that read or write one file.
pub open spec fn count_file_tools(names: Seq<Seq<char>>) -> nat
    decreases names.len(),
{
    if names.len() == 0 {
        0
    } else {
        count_file_tools(names.drop_last()) + if is_file_tool(names.last()) {
            1nat
        } else {
            0nat
        }
    }
}

/// The last five tool calls look like work that came to an end: a tool
/// that reads and a tool that writes are both among them, or at least two
/// of them read or wrote a file.
pub open spec fn spec_has_successful_execution_pattern(history: Seq<ToolCall>) -> bool {
    let recent = last_items(tool_names(history), 5);
    ||| ((exists|i: int| 0 <= i < recent.len() && is_read_tool(#[trigger] recent[i])) && (
    exists|j: int| 0 <= j < recent.len() && is_write_tool(#[trigger] recent[j])))
    ||| count_file_tools(recent) >= 2
}

/// A named rule that tells a finished task by what was said and which
/// tools were used.
#[derive(Debug, PartialEq, Eq)]
pub struct CompletionPattern {
    /// The name of the rule.
    pub name: String,
    /// What kind of task it tells.
    pub description: String,
    /// Texts of which one has to occur in a recent message; none, if empty.
    pub message_patterns: Vec<String>,
    /// Tools that all have to be among the recent calls; none, if empty.
    pub tool_sequence: Vec<String>,
    /// How many tool calls there have to be at least.
    pub min_tools: usize,
}

/// The mathematical form of a completion pattern.
pub struct PatternModel {
    pub name: Seq<char>,
    pub description: Seq<char>,
    pub message_patterns: Seq<Seq<char>>,
    pub tool_sequence: Seq<Seq<char>>,
    pub min_tools: nat,
}

impl View for CompletionPattern {
    type V = PatternModel;

    open spec fn view(&self) -> PatternModel {
        PatternModel {
            name: self.name@,
            description: self.description@,
            message_patterns: strings_view(self.message_patterns@),
            tool_sequence: strings_view(self.tool_sequence@),
            min_tools: self.min_tools as nat,
        }
    }
}

impl PatternModel {
    /// The rule holds when all three of these hold: it asks for no text, or
    /// one of the last three messages holds one of its texts, whatever the
    /// case; it asks for no tool, or each of its tools is among the last ten
    /// calls; and there were at least `min_tools` calls.
    pub open spec fn matches(self, messages: Seq<Seq<char>>, history: Seq<ToolCall>) -> bool {
        &&& (self.message_patterns.len() == 0 || any_message_holds(
            last_items(messages, 3),
            self.message_patterns,
        ))
        &&& (self.tool_sequence.len() == 0 || forall|k: int|
            0 <= k < self.tool_sequence.len() ==> last_items(tool_names(history), 10).contains(
                #[trigger] self.tool_sequence[k],
            ))
        &&& history.len() >= self.min_tools
    }

    /// The rule in words: its name, a colon, and its description.
    pub open spec fn label(self) -> Seq<char> {
        self.name + ": "@ + self.description
    }
}

/// Whether some text of the list is a part of `hay`.
pub fn holds_any(hay: &[char], list: &Vec<Vec<char>>) -> (found: bool)
    ensures
        found == spec_contains_any(hay@, nested(list@)),
{
    let mut i: usize = 0;
    while i < list.len()
        invariant
            i <= list.len(),
            forall|j: int| 0 <= j < i ==> !spec_contains(hay@, #[trigger] nested(list@)[j]),
        decreases list.len() - i,
    {
        assert(nested(list@)[i as int] == list@[i as int]@);
        if contains(hay, list[i].as_slice()) {
            return true;
        }
        i += 1;
    }
    false
}

/// The texts of a list, each in lower case.
pub fn lower_texts(list: &Vec<String>) -> (lower: Vec<Vec<char>>)
    ensures
        nested(lower@) == lowered(strings_view(list@)),
{
    let mut lower: Vec<Vec<char>> = Vec::new();
    let mut i: usize = 0;
    while i < list.len()
        invariant
            i <= list.len(),
            lower@.len() == i,
            forall|j: int| 0 <= j < i ==> lower@[j]@ == lowercase_of(list@[j]@),
        decreases list.len() - i,
    {
        let text = chars_of(list[i].as_str());
        lower.push(lowercase_chars(text.as_slice()));
        i += 1;
    }
    assert(nested(lower@) =~= lowered(strings_view(list@)));
    lower
}

/// Where the last `n` items of a sequence of length `len` begin.
fn recent_start(len: usize, n: usize) -> (start: usize)
    ensures
        start <= len,
        start == if len <= n {
            0
        } else {
            len - n
        },
{
    if len <= n {
        0
    } else {
        len - n
    }
}

/// Whether one of the last three messages holds a text of the list,
/// whatever the case of either.
pub fn recent_message_holds(messages: &[String], list: &Vec<String>) -> (found: bool)
    ensures
        found == any_message_holds(last_items(strings_view(messages@), 3), strings_view(list@)),
{
    let sought = lower_texts(list);
    let start = recent_start(messages.len(), 3);
    let ghost recent = last_items(strings_view(messages@), 3);
    assert(recent =~= strings_view(messages@).skip(start as int));
    let mut i: usize = start;
    while i < messages.len()
        invariant
            start <= i <= messages.len(),
            nested(sought@) == lowered(strings_view(list@)),
            recent == strings_view(messages@).skip(start as int),
            recent == last_items(strings_view(messages@), 3),
            forall|j: int|
                0 <= j < i - start ==> !spec_contains_any(
                    lowercase_of(#[trigger] recent[j]),
                    lowered(strings_view(list@)),
                ),
        decreases messages.len() - i,
    {
        let text = chars_of(messages[i].as_str());
        let lower = lowercase_chars(text.as_slice());
        assert(recent[i - start] == messages@[i as int]@);
        if holds_any(lower.as_slice(), &sought) {
            return true;
        }
        i += 1;
    }
    false
}

/// Whether `name` is among the tools of the last `n` calls.
pub fn recently_used(history: &[ToolCall], n: usize, name: &str) -> (found: bool)
    ensures
        found == last_items(tool_names(history@), n as int).contains(name@),
{
    let start = recent_start(history.len(), n);
    let ghost recent = last_items(tool_names(history@), n as int);
    assert(recent =~= tool_names(history@).skip(start as int));
    let mut i: usize = start;
    while i < history.len()
        invariant
            start <= i <= history.len(),
            recent == tool_names(history@).skip(start as int),
            recent == last_items(tool_names(history@), n as int),
            forall|j: int| 0 <= j < i - start ==> #[trigger] recent[j] != name@,
        decreases history.len() - i,
    {
        assert(recent[i - start] == history@[i as int].tool@);
        if str_eq(history[i].tool.as_str(), name) {
            return true;
        }
        i += 1;
    }
    false
}

impl CompletionPattern {
    /// Whether the rule holds of the messages and the tool calls.
    pub fn matches(&self, messages: &[String], tool_history: &[ToolCall]) -> (r: bool)
        ensures
            r == self@.matches(strings_view(messages@), tool_history@),
    {
        if self.message_patterns.len() > 0 && !recent_message_holds(
            messages,
            &self.message_patterns,
        ) {
            return false;
        }
        let mut k: usize = 0;
        while k < self.tool_sequence.len()
            invariant
                k <= self.tool_sequence.len(),
                forall|j: int|
                    0 <= j < k ==> last_items(tool_names(tool_history@), 10).contains(
                        #[trigger] strings_view(self.tool_sequence@)[j],
                    ),
            decreases self.tool_sequence.len() - k,
        {
            assert(strings_view(self.tool_sequence@)[k as int] == self.tool_sequence@[k as int]@);
            if !recently_used(tool_history, 10, self.tool_sequence[k].as_str()) {
                return false;
            }
            k += 1;
        }
        tool_history.len() >= self.min_tools
    }

    /// The rule in words: its name, a colon, and its description.
    pub fn label(&self) -> (text: String)
        ensures
            text@ == self@.label(),
    {
        concat3(self.name.as_str(), ": ", self.description.as_str())
    }
}

/// The views of a list of rules.
pub open spec fn patterns_view(patterns: Seq<CompletionPattern>) -> Seq<PatternModel> {
    Seq::new(patterns.len(), |i: int| patterns[i]@)
}

/// Some rule of the list holds.
pub open spec fn any_pattern_matches(
    patterns: Seq<PatternModel>,
    messages: Seq<Seq<char>>,
    history: Seq<ToolCall>,
) -> bool {
    exists|i: int| 0 <= i < patterns.len() && (#[trigger] patterns[i]).matches(messages, history)
}

/// The labels of the rules that hold, in the order of the rules.
pub open spec fn matching_labels(
    patterns: Seq<PatternModel>,
    messages: Seq<Seq<char>>,
    history: Seq<ToolCall>,
) -> Seq<Seq<char>>
    decreases patterns.len(),
{
    if patterns.len() == 0 {
        Seq::empty()
    } else if patterns.last().matches(messages, history) {
        matching_labels(patterns.drop_last(), messages, history).push(patterns.last().label())
    } else {
        matching_labels(patterns.drop_last(), messages, history)
    }
}

/// The rule for tasks that end in a summary or report.
pub open spec fn summary_pattern() -> PatternModel {
    PatternModel {
        name: "summary_generation"@,
        description: "Task involves creating a summary or report"@,
        message_patterns: Seq::empty().push("summary"@).push("report"@).push(
            "analysis complete"@,
        ).push("findings"@),
        tool_sequence: Seq::empty().push("search_files"@).push("read_file"@).push("write_file"@),
        min_tools: 2,
    }
}

/// The rule for tasks that put files in order.
pub open spec fn organization_pattern() -> PatternModel {
    PatternModel {
        name: "file_organization"@,
        description: "Task involves organizing or restructuring files"@,
        message_patterns: Seq::empty().push("organized"@).push("restructured"@).push(
            "cleaned up"@,
        ).push("files arranged"@),
        tool_sequence: Seq::empty().push("list_directory"@).push("read_file"@).push(
            "write_file"@,
        ),
        min_tools: 3,
    }
}

/// The rule for tasks that write documentation.
pub open spec fn documentation_pattern() -> PatternModel {
    PatternModel {
        name: "documentation"@,
        description: "Task involves creating or updating documentation"@,
        message_patterns: Seq::empty().push("documentation"@).push("readme"@).push(
            "docs updated"@,
        ).push("documented"@),
        tool_sequence: Seq::empty().push("read_file"@).push("write_file"@),
        min_tools: 2,
    }
}

/// The rule for tasks that look into code.
pub open spec fn analysis_pattern() -> PatternModel {
    PatternModel {
        name: "code_analysis"@,
        description: "Task involves analyzing code files"@,
        message_patterns: Seq::empty().push("analysis"@).push("reviewed"@).push("examined"@).push(
            "code structure"@,
        ),
        tool_sequence: Seq::empty().push("search_files"@).push("read_file"@),
        min_tools: 2,
    }
}

/// The four built-in rules.
pub open spec fn spec_default_patterns() -> Seq<PatternModel> {
    Seq::empty().push(summary_pattern()).push(organization_pattern()).push(
        documentation_pattern(),
    ).push(analysis_pattern())
}

/// A score in hundredths: 80 for an explicit signal, 60 for a rule that
/// holds, 50 for the look of finished work, 30 for tools at rest longer
/// than the threshold; halved while the last tool call is less than five
/// seconds old; and never above 100.
pub open spec fn spec_score(
    signals: bool,
    patterns: bool,
    execution: bool,
    elapsed: Option<u128>,
    threshold: u64,
) -> int {
    let sum = (if signals {
        80int
    } else {
        0int
    }) + (if patterns {
        60int
    } else {
        0int
    }) + (if execution {
        50int
    } else {
        0int
    }) + (if spec_is_inactive(elapsed, threshold) {
        30int
    } else {
        0int
    });
    let damped = if spec_is_recent(elapsed) {
        sum / 2
    } else {
        sum
    };
    if damped > 100 {
        100
    } else {
        damped
    }
}

/// The tools have been at rest for longer than the threshold, in seconds.
pub open spec fn spec_is_inactive(elapsed: Option<u128>, threshold: u64) -> bool {
    elapsed matches Some(nanos) && nanos > threshold * NANOS_PER_SECOND
}

/// The last tool call is less than five seconds old.
pub open spec fn spec_is_recent(elapsed: Option<u128>) -> bool {
    elapsed matches Some(nanos) && nanos < RECENT_SECONDS * NANOS_PER_SECOND
}

/// How far a task seems to be.
#[derive(Clone, Copy, Debug, PartialEq, Eq, Structural)]
pub enum CompletionStatus {
    InProgress,
    PossiblyComplete,
    LikelyComplete,
    Complete,
}

/// The status for a score: complete from 80, likely complete from 50,
/// possibly complete from 30.
pub open spec fn spec_status(score: int) -> CompletionStatus {
    if score >= 80 {
        CompletionStatus::Complete
    } else if score >= 50 {
        CompletionStatus::LikelyComplete
    } else if score >= 30 {
        CompletionStatus::PossiblyComplete
    } else {
        CompletionStatus::InProgress
    }
}

impl CompletionStatus {
    /// The status in words.
    pub open spec fn spec_description(self) -> Seq<char> {
        match self {
            CompletionStatus::InProgress => "Task is still in progress"@,
            CompletionStatus::PossiblyComplete => "Task might be complete"@,
            CompletionStatus::LikelyComplete => "Task is likely complete"@,
            CompletionStatus::Complete => "Task appears to be complete"@,
        }
    }

    /// The status in words.
    pub fn description(&self) -> (text: &'static str)
        ensures
            text@ == self.spec_description(),
    {
        match self {
            CompletionStatus::InProgress => "Task is still in progress",
            CompletionStatus::PossiblyComplete => "Task might be complete",
            CompletionStatus::LikelyComplete => "Task is likely complete",
            CompletionStatus::Complete => "Task appears to be complete",
        }
    }

    /// Whether the status counts as done: complete or likely complete.
    pub fn is_complete(&self) -> (r: bool)
        ensures
            r == (*self == CompletionStatus::Complete || *self == CompletionStatus::LikelyComplete),
    {
        match self {
            CompletionStatus::Complete => true,
            CompletionStatus::LikelyComplete => true,
            _ => false,
        }
    }

    /// The place of the status among the four, from 0 for in progress to
    /// 3 for complete.
    pub open spec fn rank(self) -> int {
        match self {
            CompletionStatus::InProgress => 0,
            CompletionStatus::PossiblyComplete => 1,
            CompletionStatus::LikelyComplete => 2,
            CompletionStatus::Complete => 3,
        }
    }

    /// The status for a score in hundredths.
    pub fn from_score(score: u32) -> (status: CompletionStatus)
        ensures
            status == spec_status(score as int),
    {
        if score >= 80 {
            CompletionStatus::Complete
        } else if score >= 50 {
            CompletionStatus::LikelyComplete
        } else if score >= 30 {
            CompletionStatus::PossiblyComplete
        } else {
            CompletionStatus::InProgress
        }
    }
}

fn pattern(
    name: &str,
    description: &str,
    message_patterns: Vec<String>,
    tool_sequence: Vec<String>,
    min_tools: usize,
) -> (p: CompletionPattern)
    ensures
        p@ == (PatternModel {
            name: name@,
            description: description@,
            message_patterns: strings_view(message_patterns@),
            tool_sequence: strings_view(tool_sequence@),
            min_tools: min_tools as nat,
        }),
{
    CompletionPattern {
        name: name.to_owned(),
        description: description.to_owned(),
        message_patterns,
        tool_sequence,
        min_tools,
    }
}

fn add_pattern(list: &mut Vec<CompletionPattern>, p: CompletionPattern)
    ensures
        patterns_view(final(list)@) == patterns_view(old(list)@).push(p@),
{
    let ghost before = list@;
    list.push(p);
    assert(patterns_view(list@) =~= patterns_view(before).push(p@));
}

/// Watches for the end of a task.
#[derive(Debug)]
pub struct CompletionDetector {
    last_tool_execution: Option<std::time::Instant>,
    completion_patterns: Vec<CompletionPattern>,
    inactivity_threshold: u64,
}

impl CompletionDetector {
    /// The rules that the detector goes by.
    pub closed spec fn patterns(&self) -> Seq<PatternModel> {
        patterns_view(self.completion_patterns@)
    }

    /// Whether a tool call was recorded.
    pub closed spec fn has_executed(&self) -> bool {
        self.last_tool_execution is Some
    }

    /// After how many seconds without a tool call the tools count as at
    /// rest.
    pub closed spec fn threshold(&self) -> u64 {
        self.inactivity_threshold
    }

    /// A detector with the four built-in rules and a threshold of 30
    /// seconds, which has seen no tool call yet.
    pub fn new() -> (detector: Self)
        ensures
            detector.patterns() == spec_default_patterns(),
            !detector.has_executed(),
            detector.threshold() == 30,
    {
        CompletionDetector {
            last_tool_execution: None,
            completion_patterns: Self::default_patterns(),
            inactivity_threshold: 30,
        }
    }

    /// The four built-in rules.
#[verifier::rlimit(40)]
    pub fn default_patterns() -> (list: Vec<CompletionPattern>)
        ensures
            patterns_view(list@) == spec_default_patterns(),
    {
        let mut list: Vec<CompletionPattern> = Vec::new();
        assert(patterns_view(list@) =~= Seq::<PatternModel>::empty());

        let mut texts = no_texts();
        add_text(&mut texts, "summary");
        add_text(&mut texts, "report");
        add_text(&mut texts, "analysis complete");
        add_text(&mut texts, "findings");
        let mut tools = no_texts();
        add_text(&mut tools, "search_files");
        add_text(&mut tools, "read_file");
        add_text(&mut tools, "write_file");
        add_pattern(
            &mut list,
            pattern(
                "summary_generation",
                "Task involves creating a summary or report",
                texts,
                tools,
                2,
            ),
        );

        let mut texts = no_texts();
        add_text(&mut texts, "organized");
        add_text(&mut texts, "restructured");
        add_text(&mut texts, "cleaned up");
        add_text(&mut texts, "files arranged");
        let mut tools = no_texts();
        add_text(&mut tools, "list_directory");
        add_text(&mut tools, "read_file");
        add_text(&mut tools, "write_file");
        add_pattern(
            &mut list,
            pattern(
                "file_organization",
                "Task involves organizing or restructuring files",
                texts,
                tools,
                3,
            ),
        );

        let mut texts = no_texts();
        add_text(&mut texts, "documentation");
        add_text(&mut texts, "readme");
        add_text(&mut texts, "docs updated");
        add_text(&mut texts, "documented");
        let mut tools = no_texts();
        add_text(&mut tools, "read_file");
        add_text(&mut tools, "write_file");
        add_pattern(
            &mut list,
            pattern(
                "documentation",
                "Task involves creating or updating documentation",
                texts,
                tools,
                2,
            ),
        );

        let mut texts = no_texts();
        add_text(&mut texts, "analysis");
        add_text(&mut texts, "reviewed");
        add_text(&mut texts, "examined");
        add_text(&mut texts, "code structure");
        let mut tools = no_texts();
        add_text(&mut tools, "search_files");
        add_text(&mut tools, "read_file");
        add_pattern(
            &mut list,
            pattern("code_analysis", "Task involves analyzing code files", texts, tools, 2),
        );
        list
    }

    /// Whether one of the last three messages announces that the task is
    /// done.
    pub fn has_completion_signals(&self, messages: &[String]) -> (r: bool)
        ensures
            r == spec_has_completion_signals(strings_view(messages@)),
    {
        let phrases = completion_phrases();
        recent_message_holds(messages, &phrases)
    }

    /// Whether one of the rules holds.
    pub fn matches_completion_patterns(&self, messages: &[String], tool_history: &[ToolCall]) -> (r:
        bool)
        ensures
            r == any_pattern_matches(self.patterns(), strings_view(messages@), tool_history@),
    {
        let mut i: usize = 0;
        while i < self.completion_patterns.len()
            invariant
                i <= self.completion_patterns.len(),
                forall|j: int|
                    0 <= j < i ==> !(#[trigger] patterns_view(self.completion_patterns@)[j]).matches(
                        strings_view(messages@),
                        tool_history@,
                    ),
            decreases self.completion_patterns.len() - i,
        {
            assert(patterns_view(self.completion_patterns@)[i as int]
                == self.completion_patterns@[i as int]@);
            if self.completion_patterns[i].matches(messages, tool_history) {
                return true;
            }
            i += 1;
        }
        false
    }

    /// The rules that hold, each in words, in the order of the rules.
    pub fn matching_patterns(&self, messages: &[String], tool_history: &[ToolCall]) -> (labels:
        Vec<String>)
        ensures
            strings_view(labels@) == matching_labels(
                self.patterns(),
                strings_view(messages@),
                tool_history@,
            ),
    {
        let mut labels = no_texts();
        let mut i: usize = 0;
        assert(patterns_view(self.completion_patterns@).take(0) =~= Seq::empty());
        while i < self.completion_patterns.len()
            invariant
                i <= self.completion_patterns.len(),
                strings_view(labels@) == matching_labels(
                    patterns_view(self.completion_patterns@).take(i as int),
                    strings_view(messages@),
                    tool_history@,
                ),
            decreases self.completion_patterns.len() - i,
        {
            let ghost next = patterns_view(self.completion_patterns@).take(i + 1);
            assert(next.drop_last() =~= patterns_view(self.completion_patterns@).take(i as int));
            assert(next.last() == self.completion_patterns@[i as int]@);
            if self.completion_patterns[i].matches(messages, tool_history) {
                let label = self.completion_patterns[i].label();
                add_text(&mut labels, label.as_str());
            }
            i += 1;
        }
        assert(patterns_view(self.completion_patterns@).take(
            self.completion_patterns@.len() as int,
        ) =~= patterns_view(self.completion_patterns@));
        labels
    }

    /// Whether the last five tool calls look like work that came to an end.
#[verifier::rlimit(40)]
    pub fn has_successful_execution_pattern(&self, tool_history: &[ToolCall]) -> (r: bool)
        ensures
            r == spec_has_successful_execution_pattern(tool_history@),
    {
        let start = recent_start(tool_history.len(), 5);
        let ghost recent = last_items(tool_names(tool_history@), 5);
        assert(recent =~= tool_names(tool_history@).skip(start as int));
        let mut has_read = false;
        let mut has_write = false;
        let mut file_tools: usize = 0;
        let mut i: usize = start;
        assert(recent.take(0) =~= Seq::empty());
        while i < tool_history.len()
            invariant
                start <= i <= tool_history.len(),
                recent == tool_names(tool_history@).skip(start as int),
                recent == last_items(tool_names(tool_history@), 5),
                has_read == (exists|j: int| 0 <= j < i - start && is_read_tool(#[trigger] recent[j])),
                has_write == (exists|j: int|
                    0 <= j < i - start && is_write_tool(#[trigger] recent[j])),
                file_tools == count_file_tools(recent.take(i - start)),
                file_tools <= i - start,
            decreases tool_history.len() - i,
        {
            let ghost next = recent.take(i - start + 1);
            assert(next.drop_last() =~= recent.take(i - start));
            assert(next.last() == recent[i - start]);
            assert(recent[i - start] == tool_history@[i as int].tool@);
            let name = tool_history[i].tool.as_str();
            let reads = str_eq(name, "read_file");
            let searches = str_eq(name, "search_files");
            let writes = str_eq(name, "write_file");
            let updates = str_eq(name, "update_file");
            if reads || searches {
                has_read = true;
            }
            if writes || updates {
                has_write = true;
            }
            if writes || updates || reads {
                file_tools += 1;
            }
            i += 1;
        }
        assert(recent.take(recent.len() as int) =~= recent);
        (has_read && has_write) || file_tools >= 2
    }

    /// Notes that a tool call has just come to an end.
    pub fn record_tool_execution(&mut self)
        ensures
            final(self).has_executed(),
            final(self).patterns() == old(self).patterns(),
            final(self).threshold() == old(self).threshold(),
    {
        self.last_tool_execution = Some(now());
    }

    /// The time since the last tool call in nanoseconds, if there was one.
    pub fn elapsed(&self) -> (nanos: Option<u128>)
        ensures
            nanos is Some == self.has_executed(),
    {
        match &self.last_tool_execution {
            Some(moment) => Some(nanos_since(moment)),
            None => None,
        }
    }

    /// Whether a time since the last tool call is longer than the
    /// threshold.
    pub fn is_inactive(&self, elapsed: Option<u128>) -> (r: bool)
        ensures
            r == spec_is_inactive(elapsed, self.threshold()),
    {
        match elapsed {
            Some(nanos) => nanos > (self.inactivity_threshold as u128) * NANOS_PER_SECOND,
            None => false,
        }
    }

    /// Whether the tools have been at rest for longer than the threshold,
    /// going by the time since the last tool call at this moment. Without
    /// a recorded tool call they have not.
    pub fn has_tool_inactivity(&self) -> (r: bool)
        ensures
            !self.has_executed() ==> !r,
            exists|elapsed: Option<u128>|
                elapsed is Some == self.has_executed() && r == #[trigger] spec_is_inactive(
                    elapsed,
                    self.threshold(),
                ),
    {
        let elapsed = self.elapsed();
        let r = self.is_inactive(elapsed);
        assert(r == spec_is_inactive(elapsed, self.threshold()));
        r
    }

    /// The score in hundredths, given the time since the last tool call.
    pub fn confidence_at(
        &self,
        messages: &[String],
        tool_history: &[ToolCall],
        elapsed: Option<u128>,
    ) -> (score: u32)
        ensures
            score == spec_score(
                spec_has_completion_signals(strings_view(messages@)),
                any_pattern_matches(self.patterns(), strings_view(messages@), tool_history@),
                spec_has_successful_execution_pattern(tool_history@),
                elapsed,
                self.threshold(),
            ),
            score <= 100,
    {
        let mut sum: u32 = 0;
        if self.has_completion_signals(messages) {
            sum += 80;
        }
        if self.matches_completion_patterns(messages, tool_history) {
            sum += 60;
        }
        if self.has_successful_execution_pattern(tool_history) {
            sum += 50;
        }
        if self.is_inactive(elapsed) {
            sum += 30;
        }
        let recent = match elapsed {
            Some(nanos) => nanos < (RECENT_SECONDS as u128) * NANOS_PER_SECOND,
            None => false,
        };
        if recent {
            sum = sum / 2;
        }
        if sum > 100 {
            100
        } else {
            sum
        }
    }

    /// The score in hundredths, from 0 to 100, at this moment.
    pub fn completion_confidence(&self, messages: &[String], tool_history: &[ToolCall]) -> (score:
        u32)
        ensures
            score <= 100,
            exists|elapsed: Option<u128>|
                elapsed is Some == self.has_executed() && score == #[trigger] spec_score(
                    spec_has_completion_signals(strings_view(messages@)),
                    any_pattern_matches(self.patterns(), strings_view(messages@), tool_history@),
                    spec_has_successful_execution_pattern(tool_history@),
                    elapsed,
                    self.threshold(),
                ),
    {
        let elapsed = self.elapsed();
        self.confidence_at(messages, tool_history, elapsed)
    }

    /// The status, given the time since the last tool call.
    pub fn status_at(&self, messages: &[String], tool_history: &[ToolCall], elapsed: Option<u128>) -> (status:
        CompletionStatus)
        ensures
            status == spec_status(
                spec_score(
                    spec_has_completion_signals(strings_view(messages@)),
                    any_pattern_matches(self.patterns(), strings_view(messages@), tool_history@),
                    spec_has_successful_execution_pattern(tool_history@),
                    elapsed,
                    self.threshold(),
                ),
            ),
    {
        CompletionStatus::from_score(self.confidence_at(messages, tool_history, elapsed))
    }

    /// The status at this moment.
    pub fn completion_status(&self, messages: &[String], tool_history: &[ToolCall]) -> (status:
        CompletionStatus)
        ensures
            exists|elapsed: Option<u128>|
                elapsed is Some == self.has_executed() && status == spec_status(
                    #[trigger] spec_score(
                        spec_has_completion_signals(strings_view(messages@)),
                        any_pattern_matches(
                            self.patterns(),
                            strings_view(messages@),
                            tool_history@,
                        ),
                        spec_has_successful_execution_pattern(tool_history@),
                        elapsed,
                        self.threshold(),
                    ),
                ),
    {
        let elapsed = self.elapsed();
        self.status_at(messages, tool_history, elapsed)
    }
}

/// The status goes by the score: a higher score never gives a lower
/// status, and the status counts as done from a score of 50 on.
pub proof fn lemma_status_follows_score(lower: int, higher: int)
    requires
        lower <= higher,
    ensures
        spec_status(lower).rank() <= spec_status(higher).rank(),
        (spec_status(lower) == CompletionStatus::Complete || spec_status(lower)
            == CompletionStatus::LikelyComplete) == (lower >= 50),
{
}

/// The score lies between 0 and 100, and every rule that holds can only
/// raise it: an explicit signal, a rule of completion, and the look of
/// finished work each give a score at least as high as without them.
pub proof fn lemma_score_bounds(
    signals: bool,
    patterns: bool,
    execution: bool,
    elapsed: Option<u128>,
    threshold: u64,
)
    ensures
        0 <= spec_score(signals, patterns, execution, elapsed, threshold) <= 100,
        spec_score(false, patterns, execution, elapsed, threshold) <= spec_score(
            true,
            patterns,
            execution,
            elapsed,
            threshold,
        ),
        spec_score(signals, false, execution, elapsed, threshold) <= spec_score(
            signals,
            true,
            execution,
            elapsed,
            threshold,
        ),
        spec_score(signals, patterns, false, elapsed, threshold) <= spec_score(
            signals,
            patterns,
            true,
            elapsed,
            threshold,
        ),
{
}

} // verus!
