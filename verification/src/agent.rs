//! The agent: its configuration, and the coordinator that vets, runs and
//! remembers tool calls.

use crate::completion::{
    add_text, any_pattern_matches, matching_labels, no_texts, spec_has_completion_signals,
    spec_has_successful_execution_pattern, spec_score, spec_status, CompletionDetector,
    CompletionStatus,
};
use crate::detect::{calls_view, parse_tool_calls, spec_parse_tool_calls};
use crate::executor::{
    begins, info_model, names_of, spec_format_description, AgentExecutor, ExecError,
    ExecErrorKind, ToolInfo,
};
use crate::paths::spec_join_path;
use crate::run::{follows, resume, Action, Event, Run, Step};
use crate::safety::{spec_would_allow, ManagerModel, SafetyManager};
use crate::text::{chars_of, string_of};
use crate::tools::{strings_view, ToolCall};
use vstd::prelude::*;

verus! {

/// What the agent may do, and where.
#[derive(Debug, PartialEq, Eq)]
pub struct AgentConfig {
    /// Whether agent mode is on.
    pub enabled: bool,
    /// The file name extensions, in lower case, that tools may touch.
    pub allowed_extensions: Vec<String>,
    /// The largest content, in bytes, that may be written.
    pub max_file_size: usize,
    /// The directory that relative paths start from and that tools may
    /// work in.
    pub working_directory: String,
    /// Whether a file is copied before it is overwritten.
    pub auto_backup: bool,
    /// Whether tool calls are only previewed.
    pub dry_run_mode: bool,
}

/// The mathematical form of a configuration.
pub struct ConfigModel {
    pub enabled: bool,
    pub allowed_extensions: Seq<Seq<char>>,
    pub max_file_size: nat,
    pub working_directory: Seq<char>,
    pub auto_backup: bool,
    pub dry_run_mode: bool,
}

impl View for AgentConfig {
    type V = ConfigModel;

    open spec fn view(&self) -> ConfigModel {
        ConfigModel {
            enabled: self.enabled,
            allowed_extensions: strings_view(self.allowed_extensions@),
            max_file_size: self.max_file_size as nat,
            working_directory: self.working_directory@,
            auto_backup: self.auto_backup,
            dry_run_mode: self.dry_run_mode,
        }
    }
}

/// The extensions that are allowed unless the configuration says
/// otherwise.
pub open spec fn spec_default_extensions() -> Seq<Seq<char>> {
    Seq::empty().push("txt"@).push("md"@).push("rs"@).push("toml"@).push("json"@).push(
        "yaml"@,
    ).push("yml"@).push("js"@).push("ts"@).push("py"@).push("html"@).push("css"@).push(
        "xml"@,
    ).push("csv"@).push("log"@)
}

/// The largest content that may be written unless the configuration says
/// otherwise: ten mebibytes, or as much as the machine can address.
pub open spec fn spec_default_max_file_size() -> nat {
    if 10 * 1024 * 1024 <= usize::MAX {
        10 * 1024 * 1024
    } else {
        usize::MAX as nat
    }
}

impl AgentConfig {
    /// The configuration to start from in a working directory: agent mode
    /// off, fifteen extensions of text files allowed, files up to ten
    /// mebibytes, backups on, no dry run.
    pub fn in_directory(working_directory: String) -> (config: AgentConfig)
        ensures
            config@ == (ConfigModel {
                enabled: false,
                allowed_extensions: spec_default_extensions(),
                max_file_size: spec_default_max_file_size(),
                working_directory: working_directory@,
                auto_backup: true,
                dry_run_mode: false,
            }),
    {
        let mut extensions = no_texts();
        add_text(&mut extensions, "txt");
        add_text(&mut extensions, "md");
        add_text(&mut extensions, "rs");
        add_text(&mut extensions, "toml");
        add_text(&mut extensions, "json");
        add_text(&mut extensions, "yaml");
        add_text(&mut extensions, "yml");
        add_text(&mut extensions, "js");
        add_text(&mut extensions, "ts");
        add_text(&mut extensions, "py");
        add_text(&mut extensions, "html");
        add_text(&mut extensions, "css");
        add_text(&mut extensions, "xml");
        add_text(&mut extensions, "csv");
        add_text(&mut extensions, "log");
        let limit: u64 = 10 * 1024 * 1024;
        let max_file_size: usize = if limit <= usize::MAX as u64 {
            limit as usize
        } else {
            usize::MAX
        };
        AgentConfig {
            enabled: false,
            allowed_extensions: extensions,
            max_file_size,
            working_directory,
            auto_backup: true,
            dry_run_mode: false,
        }
    }

    /// A copy of the configuration.
    pub fn duplicate(&self) -> (copy: AgentConfig)
        ensures
            copy@ == self@,
    {
        let mut extensions: Vec<String> = Vec::new();
        let mut i: usize = 0;
        while i < self.allowed_extensions.len()
            invariant
                i <= self.allowed_extensions.len(),
                extensions@.len() == i,
                forall|k: int| 0 <= k < i ==> extensions@[k]@ == self.allowed_extensions@[k]@,
            decreases self.allowed_extensions.len() - i,
        {
            extensions.push(self.allowed_extensions[i].clone());
            i += 1;
        }
        assert(strings_view(extensions@) =~= strings_view(self.allowed_extensions@));
        AgentConfig {
            enabled: self.enabled,
            allowed_extensions: extensions,
            max_file_size: self.max_file_size,
            working_directory: self.working_directory.clone(),
            auto_backup: self.auto_backup,
            dry_run_mode: self.dry_run_mode,
        }
    }
}

impl Clone for AgentConfig {
    fn clone(&self) -> (copy: Self)
        ensures
            copy@ == self@,
    {
        self.duplicate()
    }
}

/// The agent in short.
#[derive(Debug, PartialEq, Eq)]
pub struct AgentStatus {
    /// Whether agent mode is on.
    pub enabled: bool,
    /// How many tool calls were begun.
    pub tools_executed: usize,
    /// The working directory.
    pub working_directory: String,
    /// Whether tool calls are only previewed.
    pub dry_run_mode: bool,
    /// The names of the tools.
    pub available_tools: Vec<String>,
}

/// The working directory in absolute form: as it is where it is absolute,
/// else below the current directory.
pub fn normalize_working_directory(path: &str, current_directory: &str) -> (absolute: String)
    ensures
        absolute@ == spec_join_path(current_directory@, path@),
{
    let p = chars_of(path);
    let c = chars_of(current_directory);
    string_of(crate::paths::join_path(c.as_slice(), p.as_slice()).as_slice())
}

/// The coordinator: it owns the configuration, vets and runs tool calls,
/// remembers them, and judges whether the task is done.
///
/// There is one safety manager, that of the executor. Paths that are
/// added go to it, it answers `is_path_allowed`, and every call is vetted
/// with it, so a path that is added binds the calls that follow.
#[derive(Debug)]
pub struct Agent {
    config: AgentConfig,
    executor: AgentExecutor,
    completion_detector: CompletionDetector,
    tool_history: Vec<ToolCall>,
    current_directory: String,
}

impl Agent {
    /// The configuration.
    pub closed spec fn spec_config(&self) -> ConfigModel {
        self.config@
    }

    /// The tool calls that were begun, in their order.
    pub closed spec fn history(&self) -> Seq<ToolCall> {
        self.tool_history@
    }

    /// The state of the safety manager, which is the executor's.
    pub closed spec fn safety(&self) -> ManagerModel {
        self.executor.safety()
    }

    /// The directory from which relative working directories and allowed
    /// paths start.
    pub closed spec fn current_directory(&self) -> Seq<char> {
        self.current_directory@
    }

    /// The calls are vetted with the one safety manager there is.
    pub proof fn lemma_one_manager(&self)
        ensures
            self.spec_executor().safety() == self.safety(),
    {
    }

    /// The executor.
    pub closed spec fn spec_executor(&self) -> AgentExecutor {
        self.executor
    }

    /// The completion detector.
    pub closed spec fn detector(&self) -> CompletionDetector {
        self.completion_detector
    }

    /// An agent for a configuration whose working directory is made
    /// absolute from the current directory. It has run no tool yet.
    pub fn new(config: AgentConfig, current_directory: &str) -> (r: Result<Self, ExecError>)
        ensures
            r is Ok,
            r->Ok_0.history().len() == 0,
            r->Ok_0.spec_config() == (ConfigModel {
                working_directory: spec_join_path(current_directory@, config@.working_directory),
                ..config@
            }),
            r->Ok_0.safety() == (ManagerModel {
                config: r->Ok_0.spec_config(),
                allowed: seq![r->Ok_0.spec_config().working_directory],
                forbidden: crate::safety::spec_default_forbidden(),
                current: current_directory@,
            }),
            r->Ok_0.current_directory() == current_directory@,
            r->Ok_0.spec_executor().wf(),
            r->Ok_0.spec_executor().config() == r->Ok_0.spec_config(),
            r->Ok_0.spec_executor().safety() == r->Ok_0.safety(),
            r->Ok_0.spec_executor().tools() == crate::executor::builtin_tools(),
            !r->Ok_0.detector().has_executed(),
            r->Ok_0.detector().patterns() == crate::completion::spec_default_patterns(),
            r->Ok_0.detector().threshold() == 30,
    {
        let mut config = config;
        config.working_directory = normalize_working_directory(
            config.working_directory.as_str(),
            current_directory,
        );
        let executor = AgentExecutor::with_builtin_tools(
            config.duplicate(),
            SafetyManager::with_defaults(&config, current_directory),
        );
        Ok(
            Agent {
                config,
                executor,
                completion_detector: CompletionDetector::new(),
                tool_history: Vec::new(),
                current_directory: current_directory.to_owned(),
            },
        )
    }

    /// Whether agent mode is on.
    pub fn is_enabled(&self) -> (r: bool)
        ensures
            r == self.spec_config().enabled,
    {
        self.config.enabled
    }

    /// Turns agent mode on or off.
    pub fn set_enabled(&mut self, enabled: bool)
        ensures
            final(self).spec_config() == (ConfigModel { enabled, ..old(self).spec_config() }),
            final(self).history() == old(self).history(),
            final(self).safety() == old(self).safety(),
            final(self).spec_executor() == old(self).spec_executor(),
            final(self).current_directory() == old(self).current_directory(),
            final(self).detector() == old(self).detector(),
    {
        self.config.enabled = enabled;
    }

    /// The configuration.
    pub fn config(&self) -> (config: &AgentConfig)
        ensures
            config@ == self.spec_config(),
    {
        &self.config
    }

    /// Takes a new configuration, whose working directory is made absolute
    /// from the current directory: the safety manager and the executor are
    /// built anew from it, so paths that were added are gone. The history
    /// stays.
    pub fn update_config(&mut self, config: AgentConfig) -> (r: Result<(), ExecError>)
        ensures
            r is Ok,
            final(self).history() == old(self).history(),
            final(self).detector() == old(self).detector(),
            final(self).current_directory() == old(self).current_directory(),
            final(self).spec_config() == (ConfigModel {
                working_directory: spec_join_path(
                    old(self).current_directory(),
                    config@.working_directory,
                ),
                ..config@
            }),
            final(self).safety() == (ManagerModel {
                config: final(self).spec_config(),
                allowed: seq![final(self).spec_config().working_directory],
                forbidden: crate::safety::spec_default_forbidden(),
                current: old(self).current_directory(),
            }),
            final(self).spec_executor().wf(),
            final(self).spec_executor().tools() == crate::executor::builtin_tools(),
            final(self).spec_executor().safety() == final(self).safety(),
            final(self).spec_executor().config() == final(self).spec_config(),
    {
        let mut config = config;
        config.working_directory = normalize_working_directory(
            config.working_directory.as_str(),
            self.current_directory.as_str(),
        );
        let executor = AgentExecutor::with_builtin_tools(
            config.duplicate(),
            SafetyManager::with_defaults(&config, self.current_directory.as_str()),
        );
        self.executor = executor;
        self.config = config;
        Ok(())
    }

    /// Finds the tool calls in a message. With agent mode off there are
    /// none.
    pub fn detect_tool_calls(&self, message: &str) -> (r: Result<Vec<ToolCall>, ExecError>)
        ensures
            r is Ok,
            calls_view(r->Ok_0@) == if self.spec_config().enabled {
                spec_parse_tool_calls(message@)
            } else {
                Seq::empty()
            },
    {
        if !self.is_enabled() {
            let none: Vec<ToolCall> = Vec::new();
            assert(calls_view(none@) =~= Seq::empty());
            return Ok(none);
        }
        Ok(parse_tool_calls(message))
    }

    /// Begins the run of a tool call. With agent mode off that is an
    /// error and nothing changes. Else the call is added to the history,
    /// whatever becomes of it, it is vetted with the safety manager as it
    /// stands, with every path that was added, and the first step of its
    /// run is handed out; a run that is over with its first step counts as
    /// a tool call that has come to an end.
    pub fn execute_tool(&mut self, tool_call: ToolCall) -> (r: Result<Step, ExecError>)
        ensures
            final(self).spec_config() == old(self).spec_config(),
            final(self).safety() == old(self).safety(),
            final(self).spec_executor() == old(self).spec_executor(),
            final(self).current_directory() == old(self).current_directory(),
            final(self).detector().patterns() == old(self).detector().patterns(),
            final(self).detector().threshold() == old(self).detector().threshold(),
            match r {
                Err(e) => {
                    &&& !old(self).spec_config().enabled
                    &&& e.kind == ExecErrorKind::AgentDisabled
                    &&& e.message@ == "Agent mode is not enabled"@
                    &&& final(self).history() == old(self).history()
                    &&& final(self).detector() == old(self).detector()
                },
                Ok(step) => {
                    &&& old(self).spec_config().enabled
                    &&& final(self).history().len() == old(self).history().len() + 1
                    &&& final(self).history().drop_last() == old(self).history()
                    &&& final(self).history().last()@ == tool_call@
                    &&& begins(
                        old(self).spec_executor().tools(),
                        old(self).spec_executor().config(),
                        old(self).safety(),
                        tool_call@,
                        step,
                    )
                    &&& step.action is Finish ==> final(self).detector().has_executed()
                    &&& !(step.action is Finish) ==> final(self).detector() == old(
                        self,
                    ).detector()
                },
            },
    {
        if !self.is_enabled() {
            return Err(
                ExecError {
                    kind: ExecErrorKind::AgentDisabled,
                    message: "Agent mode is not enabled".to_owned(),
                },
            );
        }
        let ghost before = self.tool_history@;
        self.tool_history.push(tool_call.duplicate());
        assert(self.tool_history@.drop_last() =~= before);
        let step = self.executor.execute(tool_call);
        match &step.action {
            Action::Finish(_) => {
                self.completion_detector.record_tool_execution();
            },
            _ => {},
        }
        Ok(step)
    }

    /// Takes the run of a tool call one step further. A step that ends the
    /// run counts as a tool call that has come to an end.
    pub fn resume_tool(&mut self, run: Run, event: Event) -> (step: Step)
        ensures
            follows(run, event, step),
            final(self).spec_config() == old(self).spec_config(),
            final(self).safety() == old(self).safety(),
            final(self).spec_executor() == old(self).spec_executor(),
            final(self).current_directory() == old(self).current_directory(),
            final(self).history() == old(self).history(),
            final(self).detector().patterns() == old(self).detector().patterns(),
            final(self).detector().threshold() == old(self).detector().threshold(),
            step.action is Finish ==> final(self).detector().has_executed(),
            !(step.action is Finish) ==> final(self).detector() == old(self).detector(),
    {
        let step = resume(run, event);
        match &step.action {
            Action::Finish(_) => {
                self.completion_detector.record_tool_execution();
            },
            _ => {},
        }
        step
    }

    /// Whether the task seems to be done: the status is complete or likely
    /// complete. With agent mode off it never does.
    pub fn is_task_complete(&self, recent_messages: &[String]) -> (r: bool)
        ensures
            !self.spec_config().enabled ==> !r,
            self.spec_config().enabled ==> exists|elapsed: Option<u128>|
                elapsed is Some == self.detector().has_executed() && r == (#[trigger] spec_score(
                    spec_has_completion_signals(strings_view(recent_messages@)),
                    any_pattern_matches(
                        self.detector().patterns(),
                        strings_view(recent_messages@),
                        self.history(),
                    ),
                    spec_has_successful_execution_pattern(self.history()),
                    elapsed,
                    self.detector().threshold(),
                ) >= 50),
    {
        if !self.is_enabled() {
            return false;
        }
        let elapsed = self.completion_detector.elapsed();
        let status = self.completion_detector.status_at(
            recent_messages,
            self.tool_history.as_slice(),
            elapsed,
        );
        let done = status.is_complete();
        assert(done == (spec_score(
            spec_has_completion_signals(strings_view(recent_messages@)),
            any_pattern_matches(
                self.detector().patterns(),
                strings_view(recent_messages@),
                self.history(),
            ),
            spec_has_successful_execution_pattern(self.history()),
            elapsed,
            self.detector().threshold(),
        ) >= 50));
        done
    }

    /// The status of the task at this moment, from the messages and the
    /// history.
    pub fn completion_status(&self, recent_messages: &[String]) -> (status: CompletionStatus)
        ensures
            exists|elapsed: Option<u128>|
                elapsed is Some == self.detector().has_executed() && status == spec_status(
                    #[trigger] spec_score(
                        spec_has_completion_signals(strings_view(recent_messages@)),
                        any_pattern_matches(
                            self.detector().patterns(),
                            strings_view(recent_messages@),
                            self.history(),
                        ),
                        spec_has_successful_execution_pattern(self.history()),
                        elapsed,
                        self.detector().threshold(),
                    ),
                ),
    {
        let elapsed = self.completion_detector.elapsed();
        let status = self.completion_detector.status_at(
            recent_messages,
            self.tool_history.as_slice(),
            elapsed,
        );
        assert(status == spec_status(
            spec_score(
                spec_has_completion_signals(strings_view(recent_messages@)),
                any_pattern_matches(
                    self.detector().patterns(),
                    strings_view(recent_messages@),
                    self.history(),
                ),
                spec_has_successful_execution_pattern(self.history()),
                elapsed,
                self.detector().threshold(),
            ),
        ));
        status
    }

    /// The score of the task at this moment, in hundredths.
    pub fn completion_confidence(&self, recent_messages: &[String]) -> (score: u32)
        ensures
            score <= 100,
            exists|elapsed: Option<u128>|
                elapsed is Some == self.detector().has_executed() && score == #[trigger] spec_score(
                    spec_has_completion_signals(strings_view(recent_messages@)),
                    any_pattern_matches(
                        self.detector().patterns(),
                        strings_view(recent_messages@),
                        self.history(),
                    ),
                    spec_has_successful_execution_pattern(self.history()),
                    elapsed,
                    self.detector().threshold(),
                ),
    {
        let elapsed = self.completion_detector.elapsed();
        let score = self.completion_detector.confidence_at(
            recent_messages,
            self.tool_history.as_slice(),
            elapsed,
        );
        assert(score == spec_score(
            spec_has_completion_signals(strings_view(recent_messages@)),
            any_pattern_matches(
                self.detector().patterns(),
                strings_view(recent_messages@),
                self.history(),
            ),
            spec_has_successful_execution_pattern(self.history()),
            elapsed,
            self.detector().threshold(),
        ));
        score
    }

    /// The rules of completion that hold, each in words.
    pub fn completion_pattern_matches(&self, recent_messages: &[String]) -> (labels: Vec<String>)
        ensures
            strings_view(labels@) == matching_labels(
                self.detector().patterns(),
                strings_view(recent_messages@),
                self.history(),
            ),
    {
        self.completion_detector.matching_patterns(recent_messages, self.tool_history.as_slice())
    }

    /// The tool calls that were begun, in their order.
    pub fn tool_history(&self) -> (history: &Vec<ToolCall>)
        ensures
            history@ == self.history(),
    {
        &self.tool_history
    }

    /// Forgets the tool calls.
    pub fn clear_history(&mut self)
        ensures
            final(self).history().len() == 0,
            final(self).spec_config() == old(self).spec_config(),
            final(self).safety() == old(self).safety(),
            final(self).spec_executor() == old(self).spec_executor(),
            final(self).current_directory() == old(self).current_directory(),
            final(self).detector() == old(self).detector(),
    {
        self.tool_history.clear();
    }

    /// The names of the tools.
    pub fn available_tools(&self) -> (names: Vec<String>)
        ensures
            strings_view(names@) == names_of(self.spec_executor().tools()),
    {
        self.executor.available_tools()
    }

    /// What is known of each tool, for a model that is to call them.
    pub fn tool_definitions(&self) -> (infos: Vec<ToolInfo>)
        ensures
            infos@.len() == self.spec_executor().tools().len(),
            forall|k: int|
                0 <= k < infos@.len() ==> (#[trigger] infos@[k])@ == info_model(
                    self.spec_executor().tools()[k],
                ),
    {
        self.executor.get_all_tool_info()
    }

    /// The tools described for a reader, one text each.
    pub fn tool_catalog(&self) -> (catalog: Vec<String>)
        ensures
            catalog@.len() == self.spec_executor().tools().len(),
            forall|k: int|
                0 <= k < catalog@.len() ==> (#[trigger] catalog@[k])@ == spec_format_description(
                    self.spec_executor().tools()[k].spec_name(),
                    self.spec_executor().tools()[k].spec_description(),
                    self.spec_executor().tools()[k].spec_parameters(),
                ),
    {
        let infos = self.executor.get_all_tool_info();
        let mut catalog: Vec<String> = Vec::new();
        let mut i: usize = 0;
        while i < infos.len()
            invariant
                i <= infos.len(),
                catalog@.len() == i,
                infos@.len() == self.spec_executor().tools().len(),
                forall|k: int|
                    0 <= k < infos@.len() ==> (#[trigger] infos@[k])@ == info_model(
                        self.spec_executor().tools()[k],
                    ),
                forall|k: int|
                    0 <= k < i ==> (#[trigger] catalog@[k])@ == spec_format_description(
                        self.spec_executor().tools()[k].spec_name(),
                        self.spec_executor().tools()[k].spec_description(),
                        self.spec_executor().tools()[k].spec_parameters(),
                    ),
            decreases infos.len() - i,
        {
            assert(infos@[i as int]@ == info_model(self.spec_executor().tools()[i as int]));
            catalog.push(infos[i].format_description());
            i += 1;
        }
        catalog
    }

    /// Adds a directory in which paths are allowed. The calls that follow
    /// are vetted with it.
    pub fn add_allowed_path(&mut self, path: String)
        ensures
            final(self).safety() == (ManagerModel {
                allowed: old(self).safety().allowed.push(path@),
                ..old(self).safety()
            }),
            final(self).spec_executor().safety() == final(self).safety(),
            final(self).spec_executor().tools() == old(self).spec_executor().tools(),
            final(self).spec_executor().config() == old(self).spec_executor().config(),
            final(self).spec_config() == old(self).spec_config(),
            final(self).current_directory() == old(self).current_directory(),
            final(self).history() == old(self).history(),
            final(self).detector() == old(self).detector(),
    {
        self.executor.add_allowed_path(path);
    }

    /// Adds a directory, or a wild card, in which paths are forbidden. The
    /// calls that follow are vetted with it.
    pub fn add_forbidden_path(&mut self, path: String)
        ensures
            final(self).safety() == (ManagerModel {
                forbidden: old(self).safety().forbidden.push(path@),
                ..old(self).safety()
            }),
            final(self).spec_executor().safety() == final(self).safety(),
            final(self).spec_executor().tools() == old(self).spec_executor().tools(),
            final(self).spec_executor().config() == old(self).spec_executor().config(),
            final(self).spec_config() == old(self).spec_config(),
            final(self).current_directory() == old(self).current_directory(),
            final(self).history() == old(self).history(),
            final(self).detector() == old(self).detector(),
    {
        self.executor.add_forbidden_path(path);
    }

    /// The allowed directories.
    pub fn allowed_paths(&self) -> (paths: Vec<String>)
        ensures
            strings_view(paths@) == self.safety().allowed,
    {
        copy_texts(self.executor.safety_manager().allowed_paths())
    }

    /// The forbidden entries.
    pub fn forbidden_paths(&self) -> (paths: Vec<String>)
        ensures
            strings_view(paths@) == self.safety().forbidden,
    {
        copy_texts(self.executor.safety_manager().forbidden_paths())
    }

    /// Whether the safety manager would let a path through, going by the
    /// allowed and the forbidden directories.
    pub fn is_path_allowed(&self, path: &str) -> (r: bool)
        ensures
            r == spec_would_allow(self.safety(), path@),
    {
        self.executor.safety_manager().would_allow_path(path)
    }

    /// The agent in short.
    pub fn status(&self) -> (status: AgentStatus)
        ensures
            status.enabled == self.spec_config().enabled,
            status.tools_executed == self.history().len(),
            status.working_directory@ == self.spec_config().working_directory,
            status.dry_run_mode == self.spec_config().dry_run_mode,
            strings_view(status.available_tools@) == names_of(self.spec_executor().tools()),
    {
        AgentStatus {
            enabled: self.config.enabled,
            tools_executed: self.tool_history.len(),
            working_directory: self.config.working_directory.clone(),
            dry_run_mode: self.config.dry_run_mode,
            available_tools: self.available_tools(),
        }
    }
}

/// A copy of a list of texts.
fn copy_texts(texts: &Vec<String>) -> (copy: Vec<String>)
    ensures
        strings_view(copy@) == strings_view(texts@),
{
    let mut copy: Vec<String> = Vec::new();
    let mut i: usize = 0;
    while i < texts.len()
        invariant
            i <= texts.len(),
            copy@.len() == i,
            forall|k: int| 0 <= k < i ==> copy@[k]@ == texts@[k]@,
        decreases texts.len() - i,
    {
        copy.push(texts[i].clone());
        i += 1;
    }
    assert(strings_view(copy@) =~= strings_view(texts@));
    copy
}

} // verus!
