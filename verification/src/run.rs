//! One tool call, run step by step.
//!
//! A run asks for one thing at a time: look at a path, read a file, write
//! one, copy one, list a directory. Whoever drives the run does that and
//! reports how it went; the run then asks for the next thing or finishes.
//! A run never asks to write before the checks of its tool have passed.

use crate::executor::{
    spec_backup_path, spec_stamp, utc_stamp, ExecError, ExecErrorKind, UtcTime,
};
use crate::json::{
    fields_view, set_member, spec_with_member, JsonModel, JsonValue,
};
use crate::text::{byte_len, byte_length, concat2};
use crate::json::items_view;
use crate::text::spec_lines;
use crate::tools::{
    info_result, list_probe_result, list_result, next_accepted, opt_view, read_probe_result,
    read_result, scan_lines, search_data, search_message, spec_edit, spec_wants_lines,
    update_probe_result, update_result, update_stop_result, write_result, EditModel, EntryFacts,
    FileFacts, FileInfoTool, InspectOutcome, ListDirectoryTool, ListPlan, PathKind, ReadFileTool,
    SearchPlan, SearchRun, SearchStart, Tool, ToolCall, ToolError, ToolResult, ToolResultModel,
    UpdateFileTool, UpdateStep, WalkedEntry, WriteFileTool, WriteOutcome, WritePlan,
};
use vstd::prelude::*;

verus! {

/// What a run asks for.
#[derive(Debug, PartialEq, Eq)]
pub enum Action {
    /// Say what stands at the path.
    Probe { path: String },
    /// Read the file at the path as text.
    ReadText { path: String },
    /// Create the directory `parent`, if one is given and does not exist,
    /// and write `content` to the file at `path`.
    WriteText { path: String, content: String, parent: Option<String> },
    /// Copy the file at `from` to `to`.
    CopyFile { from: String, to: String },
    /// Say what is known of what stands at the path.
    Inspect { path: String },
    /// Say what the directory holds: itself and all below it if
    /// `recursive`, else its entries.
    List { path: String, recursive: bool },
    /// Say what is found at and below the directory.
    Walk { directory: String },
    /// Nothing more: the run is over, with a result or an error.
    Finish(Result<ToolResult, ExecError>),
}

/// How what a run asked for went.
#[derive(Debug, PartialEq, Eq)]
pub enum Event {
    /// What stands at the path.
    Probed(PathKind),
    /// The text of the file, or why it could not be read.
    Text(Result<String, String>),
    /// How writing went.
    Written(WriteOutcome),
    /// That the file was copied, or why it could not be.
    Copied(Result<(), String>),
    /// What is known of what stands at the path.
    Inspected(InspectOutcome),
    /// What the directory holds, or why it could not be read.
    Listed(Result<Vec<EntryFacts>, String>),
    /// What was found at and below the directory.
    Walked(Vec<WalkedEntry>),
}

/// Where a run stands.
#[derive(Debug, PartialEq, Eq)]
#[allow(inconsistent_fields)]
pub enum Stage {
    /// It asked what stands at the path of the file to be changed.
    BackupProbe { tool: Tool, call: ToolCall, path: String },
    /// It asked for the copy at `to`.
    BackupCopy { tool: Tool, call: ToolCall, to: String },
    /// `read_file` asked what stands at the path.
    ReadProbe { path: String },
    /// `read_file` asked for the text.
    ReadText { path: String },
    /// `write_file` asked to write.
    Write { plan: WritePlan },
    /// `update_file` asked what stands at the path.
    UpdateProbe { path: String, operation: String, parameters: Vec<(String, JsonValue)> },
    /// `update_file` asked for the text.
    UpdateRead { path: String, operation: String, parameters: Vec<(String, JsonValue)> },
    /// `update_file` asked to write.
    UpdateWrite { path: String, operation: String, original_size: usize, new_size: usize },
    /// `search_files` asked for the walk.
    SearchWalk { plan: SearchPlan },
    /// `search_files` asked for the text of the file at `path`.
    SearchRead { search: SearchRun, path: String },
    /// `list_directory` asked what stands at the path.
    ListProbe { plan: ListPlan },
    /// `list_directory` asked for the entries.
    List { plan: ListPlan },
    /// `file_info` asked what is known of the path.
    InfoInspect { path: String },
    /// `file_info` asked for the text, to count the lines.
    InfoRead { path: String, facts: FileFacts },
    /// The run is over.
    Finished,
}

/// A run: where it stands, and where the copy of the file lies that was
/// made before the run changes the file.
#[derive(Debug, PartialEq, Eq)]
pub struct Run {
    pub backup: Option<String>,
    pub stage: Stage,
}

/// A step of a run: the run after it, and what it asks for.
#[derive(Debug, PartialEq, Eq)]
pub struct Step {
    pub run: Run,
    pub action: Action,
}

/// A result with the place of the backup noted in it: under
/// `backup_created`, where there is a backup, the tool succeeded and its
/// data is an object. Else the result as it is.
pub open spec fn spec_annotate(result: ToolResultModel, backup: Option<Seq<char>>) -> ToolResultModel {
    match (backup, result.data) {
        (Some(place), JsonModel::Object(fields)) => if result.success {
            ToolResultModel {
                data: JsonModel::Object(
                    spec_with_member(fields, "backup_created"@, JsonModel::Text(place)),
                ),
                ..result
            }
        } else {
            result
        },
        _ => result,
    }
}

/// The step ends the run with this result.
pub open spec fn ends_with(step: Step, result: ToolResultModel) -> bool {
    &&& step.action matches Action::Finish(Ok(r)) && r@ == result
    &&& step.run.stage is Finished
}

/// The step ends the run with an error of this kind and wording.
pub open spec fn fails_with(step: Step, kind: ExecErrorKind, message: Seq<char>) -> bool {
    &&& step.action matches Action::Finish(Err(e)) && e.kind == kind && e.message@ == message
    &&& step.run.stage is Finished
}

/// The step ends the run because the tool lacks a parameter: a failure that
/// is reported as a result.
pub open spec fn ends_lacking(step: Step, e: ToolError) -> bool {
    ends_with(step, ToolResultModel::error("Tool execution failed: "@ + e.spec_message()))
}

/// The step keeps the note of the backup.
pub open spec fn keeps_backup(step: Step, backup: Option<Seq<char>>) -> bool {
    opt_view(step.run.backup) == backup
}

/// Notes the place of the backup in a result.
pub fn annotate(result: ToolResult, backup: &Option<String>) -> (noted: ToolResult)
    ensures
        noted@ == spec_annotate(result@, opt_view(*backup)),
{
    let place = match backup {
        Some(place) => place,
        None => { return result; },
    };
    if !result.success {
        return result;
    }
    let ToolResult { success, data, message, modified_files } = result;
    match data {
        JsonValue::Object(mut fields) => {
            set_member(&mut fields, "backup_created", JsonValue::text(place.as_str()));
            ToolResult { success, data: JsonValue::Object(fields), message, modified_files }
        },
        other => ToolResult { success, data: other, message, modified_files },
    }
}

/// The last step of a run that went to its end.
pub fn finish(result: ToolResult, backup: Option<String>) -> (step: Step)
    ensures
        ends_with(step, spec_annotate(result@, opt_view(backup))),
{
    let noted = annotate(result, &backup);
    Step { run: Run { backup, stage: Stage::Finished }, action: Action::Finish(Ok(noted)) }
}

/// The last step of a run whose tool lacks a parameter.
pub fn finish_lacking(e: ToolError, backup: Option<String>) -> (step: Step)
    ensures
        ends_lacking(step, e),
{
    let result = ToolResult::error(concat2("Tool execution failed: ", e.message()));
    Step { run: Run { backup, stage: Stage::Finished }, action: Action::Finish(Ok(result)) }
}

/// The last step of a run that was given up.
pub fn give_up(kind: ExecErrorKind, message: String) -> (step: Step)
    ensures
        fails_with(step, kind, message@),
{
    Step {
        run: Run { backup: None, stage: Stage::Finished },
        action: Action::Finish(Err(ExecError { kind, message })),
    }
}

/// The last step of a run that was told something it had not asked for.
pub fn unexpected() -> (step: Step)
    ensures
        fails_with(step, ExecErrorKind::UnexpectedEvent, "Unexpected event"@),
{
    give_up(ExecErrorKind::UnexpectedEvent, "Unexpected event".to_owned())
}

/// How a tool begins, given its parameters.
///
/// `read_file`, `update_file` and `list_directory` first ask what stands at
/// their path, `file_info` what is known of it; `write_file` asks to write
/// at once; `search_files` asks for a walk of its directory. A tool that
/// lacks a parameter, and a search whose pattern cannot be compiled, end the
/// run with a failure for a result.
pub open spec fn tool_begins(
    tool: Tool,
    parameters: Seq<(Seq<char>, JsonModel)>,
    backup: Option<Seq<char>>,
    step: Step,
) -> bool {
    let path = crate::tools::spec_param_text(parameters, "path"@);
    match tool {
        Tool::ReadFile(_) => match path {
            None => ends_lacking(step, ToolError::MissingPath),
            Some(p) => {
                &&& keeps_backup(step, backup)
                &&& step.action matches Action::Probe { path: asked } && asked@ == p
                &&& step.run.stage matches Stage::ReadProbe { path: kept } && kept@ == p
            },
        },
        Tool::WriteFile(_) => match path {
            None => ends_lacking(step, ToolError::MissingPath),
            Some(p) => match crate::tools::spec_param_text(parameters, "content"@) {
                None => ends_lacking(step, ToolError::MissingContent),
                Some(c) => {
                    &&& keeps_backup(step, backup)
                    &&& step.action matches Action::WriteText { path: asked, content, parent }
                        && asked@ == p && content@ == c && opt_view(parent)
                        == crate::paths::spec_parent(p)
                    &&& step.run.stage matches Stage::Write { plan } && plan.path@ == p
                        && plan.content@ == c && opt_view(plan.parent)
                        == crate::paths::spec_parent(p)
                },
            },
        },
        Tool::UpdateFile(_) => match path {
            None => ends_lacking(step, ToolError::MissingPath),
            Some(p) => match crate::tools::spec_param_text(parameters, "operation"@) {
                None => ends_lacking(step, ToolError::MissingOperation),
                Some(op) => {
                    &&& keeps_backup(step, backup)
                    &&& step.action matches Action::Probe { path: asked } && asked@ == p
                    &&& step.run.stage matches Stage::UpdateProbe {
                        path: kept,
                        operation,
                        parameters: params,
                    } && kept@ == p && operation@ == op && fields_view(params@) == parameters
                },
            },
        },
        Tool::SearchFiles(_) => match crate::tools::spec_param_text(parameters, "pattern"@) {
            None => ends_lacking(step, ToolError::MissingPattern),
            Some(pattern) => match crate::tools::spec_search_regex(
                pattern,
                crate::tools::spec_param_bool(parameters, "case_sensitive"@) == Some(true),
            ) {
                Err(reason) => ends_with(
                    step,
                    spec_annotate(ToolResultModel::error("Invalid pattern: "@ + reason), backup),
                ),
                Ok(regex) => {
                    &&& keeps_backup(step, backup)
                    &&& step.action matches Action::Walk { directory } && directory@
                        == match crate::tools::spec_param_text(parameters, "directory"@) {
                        Some(d) => d,
                        None => "."@,
                    }
                    &&& step.run.stage matches Stage::SearchWalk { plan } && plan.regex@ == regex
                        && plan.pattern@ == pattern && plan.directory@
                        == match crate::tools::spec_param_text(parameters, "directory"@) {
                        Some(d) => d,
                        None => "."@,
                    } && opt_view(plan.file_pattern) == crate::tools::spec_param_text(
                        parameters,
                        "file_pattern"@,
                    ) && plan.max_results == match crate::tools::spec_param_u64(
                        parameters,
                        "max_results"@,
                    ) {
                        Some(n) => n,
                        None => 100,
                    }
                },
            },
        },
        Tool::ListDirectory(_) => {
            let p = match path {
                Some(p) => p,
                None => "."@,
            };
            &&& keeps_backup(step, backup)
            &&& step.action matches Action::Probe { path: asked } && asked@ == p
            &&& step.run.stage matches Stage::ListProbe { plan } && plan.path@ == p
                && plan.recursive == (crate::tools::spec_param_bool(parameters, "recursive"@)
                == Some(true)) && plan.show_hidden == (crate::tools::spec_param_bool(
                parameters,
                "show_hidden"@,
            ) == Some(true))
        },
        Tool::FileInfo(_) => match path {
            None => ends_lacking(step, ToolError::MissingPath),
            Some(p) => {
                &&& keeps_backup(step, backup)
                &&& step.action matches Action::Inspect { path: asked } && asked@ == p
                &&& step.run.stage matches Stage::InfoInspect { path: kept } && kept@ == p
            },
        },
    }
}

/// Begins the work of a tool.
#[verifier::rlimit(40)]
pub fn start_tool(tool: Tool, call: ToolCall, backup: Option<String>) -> (step: Step)
    ensures
        tool_begins(tool, call@.parameters, opt_view(backup), step),
{
    let ToolCall { tool: _, parameters, thought: _, reasoning: _ } = call;
    match tool {
        Tool::ReadFile(t) => {
            let path = match t.target(&parameters) {
                Ok(path) => path.clone(),
                Err(e) => { return finish_lacking(e, backup); },
            };
            Step {
                run: Run { backup, stage: Stage::ReadProbe { path: path.clone() } },
                action: Action::Probe { path },
            }
        },
        Tool::WriteFile(t) => {
            let plan = match t.plan(&parameters) {
                Ok(plan) => plan,
                Err(e) => { return finish_lacking(e, backup); },
            };
            let action = Action::WriteText {
                path: plan.path.clone(),
                content: plan.content.clone(),
                parent: crate::tools::copy_opt(&plan.parent),
            };
            Step { run: Run { backup, stage: Stage::Write { plan } }, action }
        },
        Tool::UpdateFile(t) => {
            let (path, operation) = match t.target(&parameters) {
                Ok((path, operation)) => (path.clone(), operation.clone()),
                Err(e) => { return finish_lacking(e, backup); },
            };
            let action = Action::Probe { path: path.clone() };
            Step { run: Run { backup, stage: Stage::UpdateProbe { path, operation, parameters } }, action }
        },
        Tool::SearchFiles(t) => {
            match t.start(&parameters) {
                Err(e) => finish_lacking(e, backup),
                Ok(SearchStart::Stop(result)) => finish(result, backup),
                Ok(SearchStart::Walk(plan)) => {
                    let action = Action::Walk { directory: plan.directory.clone() };
                    Step { run: Run { backup, stage: Stage::SearchWalk { plan } }, action }
                },
            }
        },
        Tool::ListDirectory(t) => {
            let plan = t.plan(&parameters);
            let action = Action::Probe { path: plan.path.clone() };
            Step { run: Run { backup, stage: Stage::ListProbe { plan } }, action }
        },
        Tool::FileInfo(t) => {
            let path = match t.target(&parameters) {
                Ok(path) => path.clone(),
                Err(e) => { return finish_lacking(e, backup); },
            };
            Step {
                run: Run { backup, stage: Stage::InfoInspect { path: path.clone() } },
                action: Action::Inspect { path },
            }
        },
    }
}

/// The step asks to read the file at `path` and waits for its text at the
/// stage given.
pub open spec fn asks_to_read(step: Step, path: Seq<char>) -> bool {
    step.action matches Action::ReadText { path: asked } && asked@ == path
}

/// How a search goes on from entry `cursor` of what the walk found: it
/// asks for the text of the next file that it looks into, and counts that
/// file; when no file is left, it ends with what it found.
pub open spec fn search_goes_on(
    plan: SearchPlan,
    entries: Seq<WalkedEntry>,
    cursor: int,
    files_searched: int,
    results: Seq<JsonModel>,
    backup: Option<Seq<char>>,
    step: Step,
) -> bool {
    let at = next_accepted(plan, entries, cursor);
    if at < entries.len() {
        &&& keeps_backup(step, backup)
        &&& asks_to_read(step, entries[at].path@)
        &&& step.run.stage matches Stage::SearchRead { search, path } && path@ == entries[at].path@
            && search.plan == plan && search.entries@ == entries && search.cursor == at + 1
            && search.files_searched == files_searched + 1 && items_view(search.results@)
            == results
    } else {
        ends_with(
            step,
            spec_annotate(
                ToolResultModel::success(
                    search_data(plan.pattern@, plan.directory@, files_searched, results),
                    Some(search_message(files_searched, results.len() as int)),
                ),
                backup,
            ),
        )
    }
}

/// The step asks for the copy of the file at `path` that is made at the
/// time of `stamp`, and keeps the tool call for afterwards.
pub open spec fn asks_for_copy(
    step: Step,
    tool: Tool,
    call: crate::tools::ToolCallModel,
    path: Seq<char>,
    stamp: Seq<char>,
) -> bool {
    &&& step.run.backup is None
    &&& match (step.action, step.run.stage) {
        (Action::CopyFile { from, to }, Stage::BackupCopy { tool: t, call: c, to: kept }) => {
            &&& from@ == path
            &&& spec_backup_path(path, stamp) == Some(to@)
            &&& kept@ == to@
            &&& t == tool
            &&& c@ == call
        },
        _ => false,
    }
}

/// What a run does when it is told how what it asked for went.
///
/// Each stage waits for one kind of report; any other ends the run with
/// an error. A result that ends the run bears the note of the backup.
pub open spec fn follows(run: Run, event: Event, step: Step) -> bool {
    let backup = opt_view(run.backup);
    match (run.stage, event) {
        (Stage::BackupProbe { tool, call, path }, Event::Probed(kind)) => if kind
            == PathKind::File {
            match crate::paths::spec_file_name(path@) {
                None => fails_with(step, ExecErrorKind::InvalidFileName, "Invalid file name"@),
                Some(_) => exists|time: UtcTime|
                    time.wf() && #[trigger] asks_for_copy(
                        step,
                        tool,
                        call@,
                        path@,
                        spec_stamp(time),
                    ),
            }
        } else {
            tool_begins(tool, call@.parameters, None, step)
        },
        (Stage::BackupCopy { tool, call, to }, Event::Copied(outcome)) => match outcome {
            Ok(_) => tool_begins(tool, call@.parameters, Some(to@), step),
            Err(reason) => fails_with(
                step,
                ExecErrorKind::BackupFailed,
                "Failed to create backup: "@ + reason@,
            ),
        },
        (Stage::ReadProbe { path }, Event::Probed(kind)) => match read_probe_result(path@, kind) {
            Some(result) => ends_with(step, spec_annotate(result, backup)),
            None => {
                &&& keeps_backup(step, backup)
                &&& asks_to_read(step, path@)
                &&& step.run.stage matches Stage::ReadText { path: kept } && kept@ == path@
            },
        },
        (Stage::ReadText { path }, Event::Text(read)) => ends_with(
            step,
            spec_annotate(read_result(path@, read), backup),
        ),
        (Stage::Write { plan }, Event::Written(outcome)) => ends_with(
            step,
            spec_annotate(write_result(plan.path@, plan.content@, outcome), backup),
        ),
        (Stage::UpdateProbe { path, operation, parameters }, Event::Probed(kind)) => match update_probe_result(
            path@,
            kind,
        ) {
            Some(result) => ends_with(step, spec_annotate(result, backup)),
            None => {
                &&& keeps_backup(step, backup)
                &&& asks_to_read(step, path@)
                &&& step.run.stage matches Stage::UpdateRead {
                    path: kept,
                    operation: op,
                    parameters: params,
                } && kept@ == path@ && op@ == operation@ && fields_view(params@) == fields_view(
                    parameters@,
                )
            },
        },
        (Stage::UpdateRead { path, operation, parameters }, Event::Text(read)) => match read {
            Err(reason) => ends_with(
                step,
                spec_annotate(update_stop_result(operation@, Err(reason@))->0, backup),
            ),
            Ok(original) => match spec_edit(operation@, original@, fields_view(parameters@)) {
                Err(e) => ends_lacking(step, e),
                Ok(EditModel::Text(content)) => {
                    &&& keeps_backup(step, backup)
                    &&& step.action matches Action::WriteText {
                        path: asked,
                        content: text,
                        parent,
                    } && asked@ == path@ && text@ == content && parent is None
                    &&& step.run.stage matches Stage::UpdateWrite {
                        path: kept,
                        operation: op,
                        original_size,
                        new_size,
                    } && kept@ == path@ && op@ == operation@ && original_size == byte_len(
                        original@,
                    ) && new_size == byte_len(content)
                },
                Ok(edit) => ends_with(
                    step,
                    spec_annotate(update_stop_result(operation@, Ok(edit))->0, backup),
                ),
            },
        },
        (
            Stage::UpdateWrite { path, operation, original_size, new_size },
            Event::Written(outcome),
        ) => ends_with(
            step,
            spec_annotate(
                update_result(path@, operation@, original_size as int, new_size as int, outcome),
                backup,
            ),
        ),
        (Stage::SearchWalk { plan }, Event::Walked(entries)) => search_goes_on(
            plan,
            entries@,
            0,
            0,
            Seq::empty(),
            backup,
            step,
        ),
        (Stage::SearchRead { search, path }, Event::Text(read)) => if !search.wf() {
            fails_with(step, ExecErrorKind::UnexpectedEvent, "Unexpected event"@)
        } else {
            let results = match read {
                Ok(content) => scan_lines(
                    search.plan.regex@,
                    path@,
                    spec_lines(content@),
                    0,
                    items_view(search.results@),
                    search.plan.max_results,
                ),
                Err(_) => items_view(search.results@),
            };
            if results.len() >= search.plan.max_results {
                ends_with(
                    step,
                    spec_annotate(
                        ToolResultModel::success(
                            search_data(
                                search.plan.pattern@,
                                search.plan.directory@,
                                search.files_searched as int,
                                results,
                            ),
                            Some(
                                search_message(
                                    search.files_searched as int,
                                    results.len() as int,
                                ),
                            ),
                        ),
                        backup,
                    ),
                )
            } else {
                search_goes_on(
                    search.plan,
                    search.entries@,
                    search.cursor as int,
                    search.files_searched as int,
                    results,
                    backup,
                    step,
                )
            }
        },
        (Stage::ListProbe { plan }, Event::Probed(kind)) => match list_probe_result(
            plan.path@,
            kind,
        ) {
            Some(result) => ends_with(step, spec_annotate(result, backup)),
            None => {
                &&& keeps_backup(step, backup)
                &&& step.action matches Action::List { path, recursive } && path@ == plan.path@
                    && recursive == plan.recursive
                &&& step.run.stage matches Stage::List { plan: kept } && kept == plan
            },
        },
        (Stage::List { plan }, Event::Listed(listed)) => ends_with(
            step,
            spec_annotate(list_result(plan, listed), backup),
        ),
        (Stage::InfoInspect { path }, Event::Inspected(outcome)) => if spec_wants_lines(
            path@,
            outcome,
        ) {
            &&& keeps_backup(step, backup)
            &&& asks_to_read(step, path@)
            &&& step.run.stage matches Stage::InfoRead { path: kept, facts } && kept@ == path@
                && outcome == InspectOutcome::Facts(facts)
        } else {
            ends_with(step, spec_annotate(info_result(path@, outcome, None), backup))
        },
        (Stage::InfoRead { path, facts }, Event::Text(read)) => ends_with(
            step,
            spec_annotate(info_result(path@, InspectOutcome::Facts(facts), Some(read)), backup),
        ),
        _ => fails_with(step, ExecErrorKind::UnexpectedEvent, "Unexpected event"@),
    }
}

/// Lets a search go on with the next file, or ends it.
fn continue_search(mut search: SearchRun, backup: Option<String>) -> (step: Step)
    requires
        search.wf(),
    ensures
        search_goes_on(
            search.plan,
            search.entries@,
            search.cursor as int,
            search.files_searched as int,
            items_view(search.results@),
            opt_view(backup),
            step,
        ),
{
    proof {
        crate::json::lemma_items_view(search.results@);
    }
    match search.next_file() {
        Some(path) => Step {
            run: Run { backup, stage: Stage::SearchRead { search, path: path.clone() } },
            action: Action::ReadText { path },
        },
        None => finish(search.finish(), backup),
    }
}

/// The copy that is made of the file at `path` before it is changed.
fn ask_for_copy(tool: Tool, call: ToolCall, path: String, stamp: &str) -> (step: Step)
    ensures
        match crate::paths::spec_file_name(path@) {
            None => fails_with(step, ExecErrorKind::InvalidFileName, "Invalid file name"@),
            Some(_) => asks_for_copy(step, tool, call@, path@, stamp@),
        },
{
    match crate::executor::backup_path(path.as_str(), stamp) {
        Err(e) => Step {
            run: Run { backup: None, stage: Stage::Finished },
            action: Action::Finish(Err(e)),
        },
        Ok(to) => Step {
            run: Run { backup: None, stage: Stage::BackupCopy { tool, call, to: to.clone() } },
            action: Action::CopyFile { from: path, to },
        },
    }
}

/// Takes a run one step further, from how what it asked for went.
#[verifier::rlimit(40)]
pub fn resume(run: Run, event: Event) -> (step: Step)
    ensures
        follows(run, event, step),
{
    let Run { backup, stage } = run;
    match (stage, event) {
        (Stage::BackupProbe { tool, call, path }, Event::Probed(kind)) => {
            if kind == PathKind::File {
                let ghost asked = (call@, path@);
                let (time, stamp) = utc_stamp("%Y%m%d_%H%M%S");
                let step = ask_for_copy(tool, call, path, stamp.as_str());
                proof {
                    if crate::paths::spec_file_name(asked.1) is Some {
                        assert(time.wf() && asks_for_copy(
                            step,
                            tool,
                            asked.0,
                            asked.1,
                            spec_stamp(time),
                        ));
                    }
                }
                step
            } else {
                start_tool(tool, call, None)
            }
        },
        (Stage::BackupCopy { tool, call, to }, Event::Copied(outcome)) => {
            match outcome {
                Ok(_) => start_tool(tool, call, Some(to)),
                Err(reason) => give_up(
                    ExecErrorKind::BackupFailed,
                    concat2("Failed to create backup: ", reason.as_str()),
                ),
            }
        },
        (Stage::ReadProbe { path }, Event::Probed(kind)) => {
            match ReadFileTool.on_probe(path.as_str(), kind) {
                Some(result) => finish(result, backup),
                None => Step {
                    run: Run { backup, stage: Stage::ReadText { path: path.clone() } },
                    action: Action::ReadText { path },
                },
            }
        },
        (Stage::ReadText { path }, Event::Text(read)) => finish(
            ReadFileTool.on_read(path.as_str(), read),
            backup,
        ),
        (Stage::Write { plan }, Event::Written(outcome)) => finish(
            WriteFileTool.on_written(&plan, outcome),
            backup,
        ),
        (Stage::UpdateProbe { path, operation, parameters }, Event::Probed(kind)) => {
            match UpdateFileTool.on_probe(path.as_str(), kind) {
                Some(result) => finish(result, backup),
                None => Step {
                    action: Action::ReadText { path: path.clone() },
                    run: Run { backup, stage: Stage::UpdateRead { path, operation, parameters } },
                },
            }
        },
        (Stage::UpdateRead { path, operation, parameters }, Event::Text(read)) => {
            match UpdateFileTool.on_read(operation.as_str(), &parameters, read) {
                Err(e) => finish_lacking(e, backup),
                Ok(UpdateStep::Stop(result)) => finish(result, backup),
                Ok(UpdateStep::Write { content, original_size }) => {
                    let new_size = byte_length(content.as_str());
                    Step {
                        action: Action::WriteText { path: path.clone(), content, parent: None },
                        run: Run {
                            backup,
                            stage: Stage::UpdateWrite { path, operation, original_size, new_size },
                        },
                    }
                },
            }
        },
        (
            Stage::UpdateWrite { path, operation, original_size, new_size },
            Event::Written(outcome),
        ) => finish(
            UpdateFileTool.on_written(
                path.as_str(),
                operation.as_str(),
                original_size,
                new_size,
                outcome,
            ),
            backup,
        ),
        (Stage::SearchWalk { plan }, Event::Walked(entries)) => {
            let search = SearchRun::new(plan, entries);
            proof {
                crate::json::lemma_items_view(search.results@);
                assert(items_view(search.results@) =~= Seq::empty());
            }
            continue_search(search, backup)
        },
        (Stage::SearchRead { mut search, path }, Event::Text(read)) => {
            if search.files_searched > search.cursor || search.cursor > search.entries.len() {
                return unexpected();
            }
            search.take(path.as_str(), read);
            proof {
                crate::json::lemma_items_view(search.results@);
            }
            if search.is_full() {
                finish(search.finish(), backup)
            } else {
                continue_search(search, backup)
            }
        },
        (Stage::ListProbe { plan }, Event::Probed(kind)) => {
            match ListDirectoryTool.on_probe(plan.path.as_str(), kind) {
                Some(result) => finish(result, backup),
                None => Step {
                    action: Action::List { path: plan.path.clone(), recursive: plan.recursive },
                    run: Run { backup, stage: Stage::List { plan } },
                },
            }
        },
        (Stage::List { plan }, Event::Listed(listed)) => finish(
            ListDirectoryTool.on_listed(&plan, listed),
            backup,
        ),
        (Stage::InfoInspect { path }, Event::Inspected(outcome)) => {
            if FileInfoTool.wants_lines(path.as_str(), &outcome) {
                match outcome {
                    InspectOutcome::Facts(facts) => Step {
                        action: Action::ReadText { path: path.clone() },
                        run: Run { backup, stage: Stage::InfoRead { path, facts } },
                    },
                    _ => unexpected(),
                }
            } else {
                finish(FileInfoTool.report(path.as_str(), outcome, None), backup)
            }
        },
        (Stage::InfoRead { path, facts }, Event::Text(read)) => finish(
            FileInfoTool.report(path.as_str(), InspectOutcome::Facts(facts), Some(read)),
            backup,
        ),
        _ => unexpected(),
    }
}

} // verus!
