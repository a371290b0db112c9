//! Tool calls, tool results, and the six built-in tools.
//!
//! A tool never touches the file system itself. It says what it needs read
//! or written, is told what was found, and makes its result from that.

use crate::json::{
    fields_view, items_view, lemma_fields_view, lemma_items_view, lookup, spec_lookup, JsonModel,
    JsonNumber, JsonValue,
};
use crate::paths::{extension, file_name, parent, spec_extension, spec_file_name, spec_parent};
use crate::pattern::{
    compile_check, compile_failure, escape, find_spans, glob_match, is_match, regex_spans,
    regex_valid, spans_view, spec_escape, spec_glob_match, spec_is_match, MatchSpan,
};
use crate::text::{
    add_str, byte_len, byte_length, chars_of, concat2, concat3, concat4, concat5,
    decimal_string, is_listed, join, lowercase_chars, lowercase_of, nested, no_strs, replace_all,
    spec_decimal, spec_join, spec_lines, spec_replace, split_lines, str_eq, string_of, strs_view,
};
use vstd::prelude::*;

verus! {

/// The view of an optional text.
pub open spec fn opt_view(text: Option<String>) -> Option<Seq<char>> {
    match text {
        Some(s) => Some(s@),
        None => None,
    }
}

/// The views of a list of texts.
pub open spec fn strings_view(texts: Seq<String>) -> Seq<Seq<char>> {
    Seq::new(texts.len(), |i: int| texts[i]@)
}

/// A copy of an optional text.
pub fn copy_opt(text: &Option<String>) -> (copy: Option<String>)
    ensures
        opt_view(copy) == opt_view(*text),
{
    match text {
        Some(s) => Some(s.clone()),
        None => None,
    }
}

/// A request to run a tool.
#[derive(Debug, PartialEq, Eq)]
pub struct ToolCall {
    /// Name of the tool to run.
    pub tool: String,
    /// Parameters for the tool, by name.
    pub parameters: Vec<(String, JsonValue)>,
    /// Optional thought process.
    pub thought: Option<String>,
    /// Optional reasoning for the call.
    pub reasoning: Option<String>,
}

/// The mathematical form of a tool call.
pub struct ToolCallModel {
    pub tool: Seq<char>,
    pub parameters: Seq<(Seq<char>, JsonModel)>,
    pub thought: Option<Seq<char>>,
    pub reasoning: Option<Seq<char>>,
}

impl View for ToolCall {
    type V = ToolCallModel;

    open spec fn view(&self) -> ToolCallModel {
        ToolCallModel {
            tool: self.tool@,
            parameters: fields_view(self.parameters@),
            thought: opt_view(self.thought),
            reasoning: opt_view(self.reasoning),
        }
    }
}

impl ToolCall {
    /// A copy of the call.
    pub fn duplicate(&self) -> (copy: ToolCall)
        ensures
            copy@ == self@,
    {
        ToolCall {
            tool: self.tool.clone(),
            parameters: crate::json::duplicate_fields(&self.parameters),
            thought: copy_opt(&self.thought),
            reasoning: copy_opt(&self.reasoning),
        }
    }
}

impl Clone for ToolCall {
    fn clone(&self) -> (copy: Self)
        ensures
            copy@ == self@,
    {
        self.duplicate()
    }
}

/// The text of the parameter `key`, where it is a string.
pub open spec fn spec_param_text(parameters: Seq<(Seq<char>, JsonModel)>, key: Seq<char>) -> Option<
    Seq<char>,
> {
    match spec_lookup(parameters, key) {
        Some(v) => v.as_text(),
        None => None,
    }
}

/// The truth value of the parameter `key`, where it is a boolean.
pub open spec fn spec_param_bool(parameters: Seq<(Seq<char>, JsonModel)>, key: Seq<char>) -> Option<
    bool,
> {
    match spec_lookup(parameters, key) {
        Some(v) => v.as_bool(),
        None => None,
    }
}

/// The value of the parameter `key`, where it is a non-negative integer.
pub open spec fn spec_param_u64(parameters: Seq<(Seq<char>, JsonModel)>, key: Seq<char>) -> Option<
    u64,
> {
    match spec_lookup(parameters, key) {
        Some(v) => v.as_u64(),
        None => None,
    }
}

/// The text of the parameter `key`, where it is a string.
pub fn param_text<'a>(parameters: &'a Vec<(String, JsonValue)>, key: &str) -> (text: Option<
    &'a String,
>)
    ensures
        match text {
            Some(s) => spec_param_text(fields_view(parameters@), key@) == Some(s@),
            None => spec_param_text(fields_view(parameters@), key@) is None,
        },
{
    match lookup(parameters, key) {
        Some(v) => v.as_text(),
        None => None,
    }
}

/// The truth value of the parameter `key`, where it is a boolean.
pub fn param_bool(parameters: &Vec<(String, JsonValue)>, key: &str) -> (b: Option<bool>)
    ensures
        b == spec_param_bool(fields_view(parameters@), key@),
{
    match lookup(parameters, key) {
        Some(v) => v.as_bool(),
        None => None,
    }
}

/// The value of the parameter `key`, where it is a non-negative integer.
pub fn param_u64(parameters: &Vec<(String, JsonValue)>, key: &str) -> (n: Option<u64>)
    ensures
        n == spec_param_u64(fields_view(parameters@), key@),
{
    match lookup(parameters, key) {
        Some(v) => v.as_u64(),
        None => None,
    }
}

/// What a tool hands back.
#[derive(Debug, PartialEq, Eq)]
pub struct ToolResult {
    /// Whether the tool did what it was asked.
    pub success: bool,
    /// What the tool found or did; on failure, the error text.
    pub data: JsonValue,
    /// A sentence about the outcome.
    pub message: Option<String>,
    /// The files that were changed.
    pub modified_files: Vec<String>,
}

/// The mathematical form of a tool result.
pub struct ToolResultModel {
    pub success: bool,
    pub data: JsonModel,
    pub message: Option<Seq<char>>,
    pub modified_files: Seq<Seq<char>>,
}

impl View for ToolResult {
    type V = ToolResultModel;

    open spec fn view(&self) -> ToolResultModel {
        ToolResultModel {
            success: self.success,
            data: self.data@,
            message: opt_view(self.message),
            modified_files: strings_view(self.modified_files@),
        }
    }
}

impl ToolResultModel {
    /// The result of a tool that worked and changed no file.
    pub open spec fn success(data: JsonModel, message: Option<Seq<char>>) -> ToolResultModel {
        ToolResultModel { success: true, data, message, modified_files: Seq::empty() }
    }

    /// The result of a tool that worked and changed the one file `path`.
    pub open spec fn changed(data: JsonModel, message: Seq<char>, path: Seq<char>) -> ToolResultModel {
        ToolResultModel { success: true, data, message: Some(message), modified_files: seq![path] }
    }

    /// The result of a tool that failed: the message is also the data.
    pub open spec fn error(message: Seq<char>) -> ToolResultModel {
        ToolResultModel {
            success: false,
            data: JsonModel::Text(message),
            message: Some(message),
            modified_files: Seq::empty(),
        }
    }
}

impl ToolResult {
    /// A result for a tool that worked.
    pub fn success(data: JsonValue, message: Option<String>) -> (result: ToolResult)
        ensures
            result@ == ToolResultModel::success(data@, opt_view(message)),
    {
        let result = ToolResult { success: true, data, message, modified_files: Vec::new() };
        assert(strings_view(result.modified_files@) =~= Seq::empty());
        result
    }

    /// A result for a tool that worked and changed files.
    pub fn success_with_files(
        data: JsonValue,
        message: Option<String>,
        modified_files: Vec<String>,
    ) -> (result: ToolResult)
        ensures
            result@ == (ToolResultModel {
                success: true,
                data: data@,
                message: opt_view(message),
                modified_files: strings_view(modified_files@),
            }),
    {
        ToolResult { success: true, data, message, modified_files }
    }

    /// A result for a tool that failed.
    pub fn error(message: String) -> (result: ToolResult)
        ensures
            result@ == ToolResultModel::error(message@),
    {
        let result = ToolResult {
            success: false,
            data: JsonValue::Text(message.clone()),
            message: Some(message),
            modified_files: Vec::new(),
        };
        assert(strings_view(result.modified_files@) =~= Seq::empty());
        result
    }
}

/// Adds a member at the end of the members of an object.
pub fn add_member(fields: &mut Vec<(String, JsonValue)>, key: &str, value: JsonValue)
    ensures
        fields_view(final(fields)@) == fields_view(old(fields)@).push((key@, value@)),
{
    let ghost before = fields@;
    fields.push((key.to_owned(), value));
    proof {
        lemma_fields_view(before);
        lemma_fields_view(fields@);
        assert(fields_view(fields@) =~= fields_view(before).push((key@, value@)));
    }
}

/// Adds an item at the end of the items of an array.
pub fn add_item(items: &mut Vec<JsonValue>, value: JsonValue)
    ensures
        items_view(final(items)@) == items_view(old(items)@).push(value@),
{
    let ghost before = items@;
    items.push(value);
    proof {
        lemma_items_view(before);
        lemma_items_view(items@);
        assert(items_view(items@) =~= items_view(before).push(value@));
    }
}

/// No members.
pub fn no_members() -> (fields: Vec<(String, JsonValue)>)
    ensures
        fields_view(fields@) == Seq::<(Seq<char>, JsonModel)>::empty(),
{
    Vec::new()
}

/// No items.
pub fn no_items() -> (items: Vec<JsonValue>)
    ensures
        items_view(items@) == Seq::<JsonModel>::empty(),
{
    Vec::new()
}

/// What stands at a path, links followed.
#[derive(Clone, Copy, Debug, PartialEq, Eq, Structural)]
pub enum PathKind {
    /// Nothing.
    Missing,
    /// A regular file.
    File,
    /// A directory.
    Directory,
    /// Anything else.
    Other,
}

/// A parameter that a tool cannot do without is missing or of the wrong
/// type.
#[derive(Clone, Copy, Debug, PartialEq, Eq, Structural)]
pub enum ToolError {
    MissingPath,
    MissingContent,
    MissingOperation,
    MissingSearch,
    MissingAppendText,
    MissingPrependText,
    MissingInsertText,
    MissingLineNumber,
    MissingPattern,
}

impl ToolError {
    /// The error in words.
    pub open spec fn spec_message(self) -> Seq<char> {
        match self {
            ToolError::MissingPath => "Missing or invalid 'path' parameter"@,
            ToolError::MissingContent => "Missing or invalid 'content' parameter"@,
            ToolError::MissingOperation => "Missing or invalid 'operation' parameter"@,
            ToolError::MissingSearch => "Missing 'search' parameter for replace operation"@,
            ToolError::MissingAppendText => "Missing 'replacement' parameter for append operation"@,
            ToolError::MissingPrependText => "Missing 'replacement' parameter for prepend operation"@,
            ToolError::MissingInsertText => "Missing 'replacement' parameter for insert_at_line operation"@,
            ToolError::MissingLineNumber => "Missing or invalid 'line_number' parameter"@,
            ToolError::MissingPattern => "Missing or invalid 'pattern' parameter"@,
        }
    }

    /// The error in words.
    pub fn message(&self) -> (text: &'static str)
        ensures
            text@ == self.spec_message(),
    {
        match self {
            ToolError::MissingPath => "Missing or invalid 'path' parameter",
            ToolError::MissingContent => "Missing or invalid 'content' parameter",
            ToolError::MissingOperation => "Missing or invalid 'operation' parameter",
            ToolError::MissingSearch => "Missing 'search' parameter for replace operation",
            ToolError::MissingAppendText => "Missing 'replacement' parameter for append operation",
            ToolError::MissingPrependText => "Missing 'replacement' parameter for prepend operation",
            ToolError::MissingInsertText => "Missing 'replacement' parameter for insert_at_line operation",
            ToolError::MissingLineNumber => "Missing or invalid 'line_number' parameter",
            ToolError::MissingPattern => "Missing or invalid 'pattern' parameter",
        }
    }
}

/// How writing a file went.
#[derive(Debug, PartialEq, Eq)]
pub enum WriteOutcome {
    /// The file was written.
    Written,
    /// The parent directories could not be created; the reason.
    DirectoriesFailed(String),
    /// The file could not be written; the reason.
    WriteFailed(String),
}

/// A number as a JSON model.
pub open spec fn number_model(n: int) -> JsonModel {
    JsonModel::Number(JsonNumber::Unsigned(n as u64))
}

/// The schema entry of a parameter of the given type.
pub open spec fn property_model(kind: Seq<char>, description: Seq<char>) -> JsonModel {
    JsonModel::Object(
        Seq::empty().push(("description"@, JsonModel::Text(description))).push(
            ("type"@, JsonModel::Text(kind)),
        ),
    )
}

/// The schema of a tool with the given parameters, of which some are
/// required.
pub open spec fn schema_model(
    properties: Seq<(Seq<char>, JsonModel)>,
    required: Seq<JsonModel>,
) -> JsonModel {
    JsonModel::Object(
        Seq::empty().push(("properties"@, JsonModel::Object(properties))).push(
            ("required"@, JsonModel::Array(required)),
        ).push(("type"@, JsonModel::Text("object"@))),
    )
}

/// The schema of a tool none of whose parameters is required.
pub open spec fn open_schema_model(properties: Seq<(Seq<char>, JsonModel)>) -> JsonModel {
    JsonModel::Object(
        Seq::empty().push(("properties"@, JsonModel::Object(properties))).push(
            ("type"@, JsonModel::Text("object"@)),
        ),
    )
}

fn property(kind: &str, description: &str) -> (v: JsonValue)
    ensures
        v@ == property_model(kind@, description@),
{
    let mut f = no_members();
    add_member(&mut f, "description", JsonValue::text(description));
    add_member(&mut f, "type", JsonValue::text(kind));
    JsonValue::Object(f)
}

fn schema(properties: Vec<(String, JsonValue)>, required: Vec<JsonValue>) -> (v: JsonValue)
    ensures
        v@ == schema_model(fields_view(properties@), items_view(required@)),
{
    let mut f = no_members();
    add_member(&mut f, "properties", JsonValue::Object(properties));
    add_member(&mut f, "required", JsonValue::Array(required));
    add_member(&mut f, "type", JsonValue::text("object"));
    JsonValue::Object(f)
}

/// Reads a text file.
#[derive(Clone, Copy, Debug, PartialEq, Eq, Structural)]
pub struct ReadFileTool;

/// Writes a file, creating or overwriting it.
#[derive(Clone, Copy, Debug, PartialEq, Eq, Structural)]
pub struct WriteFileTool;

/// Changes a part of a file.
#[derive(Clone, Copy, Debug, PartialEq, Eq, Structural)]
pub struct UpdateFileTool;

/// Searches the files of a directory for a pattern.
#[derive(Clone, Copy, Debug, PartialEq, Eq, Structural)]
pub struct SearchFilesTool;

/// Lists what a directory holds.
#[derive(Clone, Copy, Debug, PartialEq, Eq, Structural)]
pub struct ListDirectoryTool;

/// Reports facts about a file or directory.
#[derive(Clone, Copy, Debug, PartialEq, Eq, Structural)]
pub struct FileInfoTool;

/// The tools there are.
#[derive(Clone, Copy, Debug, PartialEq, Eq, Structural)]
pub enum Tool {
    ReadFile(ReadFileTool),
    WriteFile(WriteFileTool),
    UpdateFile(UpdateFileTool),
    SearchFiles(SearchFilesTool),
    ListDirectory(ListDirectoryTool),
    FileInfo(FileInfoTool),
}

impl ReadFileTool {
    /// The schema of the parameters.
    pub open spec fn spec_parameters() -> JsonModel {
        schema_model(
            Seq::empty().push(("path"@, property_model("string"@, "Path to the file to read"@))),
            Seq::empty().push(JsonModel::Text("path"@)),
        )
    }

    /// The schema of the parameters.
    pub fn parameters(&self) -> (v: JsonValue)
        ensures
            v@ == Self::spec_parameters(),
    {
        let mut props = no_members();
        add_member(&mut props, "path", property("string", "Path to the file to read"));
        let mut required = no_items();
        add_item(&mut required, JsonValue::text("path"));
        schema(props, required)
    }
}

impl WriteFileTool {
    /// The schema of the parameters.
    pub open spec fn spec_parameters() -> JsonModel {
        schema_model(
            Seq::empty().push(
                ("content"@, property_model("string"@, "Content to write to the file"@)),
            ).push(("path"@, property_model("string"@, "Path to the file to write"@))),
            Seq::empty().push(JsonModel::Text("path"@)).push(JsonModel::Text("content"@)),
        )
    }

    /// The schema of the parameters.
    pub fn parameters(&self) -> (v: JsonValue)
        ensures
            v@ == Self::spec_parameters(),
    {
        let mut props = no_members();
        add_member(&mut props, "content", property("string", "Content to write to the file"));
        add_member(&mut props, "path", property("string", "Path to the file to write"));
        let mut required = no_items();
        add_item(&mut required, JsonValue::text("path"));
        add_item(&mut required, JsonValue::text("content"));
        schema(props, required)
    }
}

impl UpdateFileTool {
    /// The schema entry of the parameter `operation`.
    pub open spec fn operation_model() -> JsonModel {
        JsonModel::Object(
            Seq::empty().push(("description"@, JsonModel::Text("Type of update operation"@))).push(
                (
                    "enum"@,
                    JsonModel::Array(
                        Seq::empty().push(JsonModel::Text("replace"@)).push(
                            JsonModel::Text("append"@),
                        ).push(JsonModel::Text("prepend"@)).push(
                            JsonModel::Text("insert_at_line"@),
                        ),
                    ),
                ),
            ).push(("type"@, JsonModel::Text("string"@))),
        )
    }

    /// The schema of the parameters.
    pub open spec fn spec_parameters() -> JsonModel {
        schema_model(
            Seq::empty().push(
                (
                    "line_number"@,
                    property_model(
                        "integer"@,
                        "Line number for insert_at_line operation (1-based)"@,
                    ),
                ),
            ).push(("operation"@, Self::operation_model())).push(
                ("path"@, property_model("string"@, "Path to the file to update"@)),
            ).push(
                (
                    "replacement"@,
                    property_model(
                        "string"@,
                        "Replacement text (for replace operation) or content to add"@,
                    ),
                ),
            ).push(
                (
                    "search"@,
                    property_model(
                        "string"@,
                        "Text to search for (required for replace operation)"@,
                    ),
                ),
            ),
            Seq::empty().push(JsonModel::Text("path"@)).push(JsonModel::Text("operation"@)),
        )
    }

    /// The schema of the parameters.
    pub fn parameters(&self) -> (v: JsonValue)
        ensures
            v@ == Self::spec_parameters(),
    {
        let mut names = no_items();
        add_item(&mut names, JsonValue::text("replace"));
        add_item(&mut names, JsonValue::text("append"));
        add_item(&mut names, JsonValue::text("prepend"));
        add_item(&mut names, JsonValue::text("insert_at_line"));
        let mut operation = no_members();
        add_member(&mut operation, "description", JsonValue::text("Type of update operation"));
        add_member(&mut operation, "enum", JsonValue::Array(names));
        add_member(&mut operation, "type", JsonValue::text("string"));
        let mut props = no_members();
        add_member(
            &mut props,
            "line_number",
            property("integer", "Line number for insert_at_line operation (1-based)"),
        );
        add_member(&mut props, "operation", JsonValue::Object(operation));
        add_member(&mut props, "path", property("string", "Path to the file to update"));
        add_member(
            &mut props,
            "replacement",
            property("string", "Replacement text (for replace operation) or content to add"),
        );
        add_member(
            &mut props,
            "search",
            property("string", "Text to search for (required for replace operation)"),
        );
        let mut required = no_items();
        add_item(&mut required, JsonValue::text("path"));
        add_item(&mut required, JsonValue::text("operation"));
        schema(props, required)
    }
}

impl SearchFilesTool {
    /// The schema of the parameters.
    pub open spec fn spec_parameters() -> JsonModel {
        schema_model(
            Seq::empty().push(
                (
                    "case_sensitive"@,
                    property_model(
                        "boolean"@,
                        "Whether the search should be case sensitive (default: false)"@,
                    ),
                ),
            ).push(
                (
                    "directory"@,
                    property_model(
                        "string"@,
                        "Directory to search in (default: current directory)"@,
                    ),
                ),
            ).push(
                (
                    "file_pattern"@,
                    property_model(
                        "string"@,
                        "File name pattern to filter (e.g., '*.rs', '*.txt')"@,
                    ),
                ),
            ).push(
                (
                    "max_results"@,
                    property_model(
                        "integer"@,
                        "Maximum number of results to return (default: 100)"@,
                    ),
                ),
            ).push(
                ("pattern"@, property_model("string"@, "Text pattern or regex to search for"@)),
            ),
            Seq::empty().push(JsonModel::Text("pattern"@)),
        )
    }

    /// The schema of the parameters.
    pub fn parameters(&self) -> (v: JsonValue)
        ensures
            v@ == Self::spec_parameters(),
    {
        let mut props = no_members();
        add_member(
            &mut props,
            "case_sensitive",
            property("boolean", "Whether the search should be case sensitive (default: false)"),
        );
        add_member(
            &mut props,
            "directory",
            property("string", "Directory to search in (default: current directory)"),
        );
        add_member(
            &mut props,
            "file_pattern",
            property("string", "File name pattern to filter (e.g., '*.rs', '*.txt')"),
        );
        add_member(
            &mut props,
            "max_results",
            property("integer", "Maximum number of results to return (default: 100)"),
        );
        add_member(&mut props, "pattern", property("string", "Text pattern or regex to search for"));
        let mut required = no_items();
        add_item(&mut required, JsonValue::text("pattern"));
        schema(props, required)
    }
}

impl ListDirectoryTool {
    /// The schema of the parameters.
    pub open spec fn spec_parameters() -> JsonModel {
        open_schema_model(
            Seq::empty().push(
                (
                    "path"@,
                    property_model(
                        "string"@,
                        "Directory path to list (default: current directory)"@,
                    ),
                ),
            ).push(
                (
                    "recursive"@,
                    property_model("boolean"@, "Whether to list recursively (default: false)"@),
                ),
            ).push(
                (
                    "show_hidden"@,
                    property_model("boolean"@, "Whether to show hidden files (default: false)"@),
                ),
            ),
        )
    }

    /// The schema of the parameters.
    pub fn parameters(&self) -> (v: JsonValue)
        ensures
            v@ == Self::spec_parameters(),
    {
        let mut props = no_members();
        add_member(
            &mut props,
            "path",
            property("string", "Directory path to list (default: current directory)"),
        );
        add_member(
            &mut props,
            "recursive",
            property("boolean", "Whether to list recursively (default: false)"),
        );
        add_member(
            &mut props,
            "show_hidden",
            property("boolean", "Whether to show hidden files (default: false)"),
        );
        let mut f = no_members();
        add_member(&mut f, "properties", JsonValue::Object(props));
        add_member(&mut f, "type", JsonValue::text("object"));
        JsonValue::Object(f)
    }
}

impl FileInfoTool {
    /// The schema of the parameters.
    pub open spec fn spec_parameters() -> JsonModel {
        schema_model(
            Seq::empty().push(("path"@, property_model("string"@, "Path to the file or directory"@))),
            Seq::empty().push(JsonModel::Text("path"@)),
        )
    }

    /// The schema of the parameters.
    pub fn parameters(&self) -> (v: JsonValue)
        ensures
            v@ == Self::spec_parameters(),
    {
        let mut props = no_members();
        add_member(&mut props, "path", property("string", "Path to the file or directory"));
        let mut required = no_items();
        add_item(&mut required, JsonValue::text("path"));
        schema(props, required)
    }
}

/// What every tool tells of itself.
pub trait ToolImpl {
    /// The name of the tool.
    spec fn spec_name(&self) -> Seq<char>;

    /// What the tool does, in a sentence.
    spec fn spec_description(&self) -> Seq<char>;

    /// The schema of the tool's parameters.
    spec fn spec_schema(&self) -> JsonModel;

    /// The name of the tool.
    fn name(&self) -> (name: &'static str)
        ensures
            name@ == self.spec_name(),
    ;

    /// What the tool does, in a sentence.
    fn description(&self) -> (text: &'static str)
        ensures
            text@ == self.spec_description(),
    ;

    /// The schema of the tool's parameters.
    fn schema(&self) -> (v: JsonValue)
        ensures
            v@ == self.spec_schema(),
    ;
}

impl ToolImpl for ReadFileTool {
    open spec fn spec_name(&self) -> Seq<char> {
        "read_file"@
    }

    open spec fn spec_description(&self) -> Seq<char> {
        "Read the contents of a text file"@
    }

    open spec fn spec_schema(&self) -> JsonModel {
        ReadFileTool::spec_parameters()
    }

    fn name(&self) -> (name: &'static str) {
        "read_file"
    }

    fn description(&self) -> (text: &'static str) {
        "Read the contents of a text file"
    }

    fn schema(&self) -> (v: JsonValue) {
        self.parameters()
    }
}

impl ToolImpl for WriteFileTool {
    open spec fn spec_name(&self) -> Seq<char> {
        "write_file"@
    }

    open spec fn spec_description(&self) -> Seq<char> {
        "Write content to a file (creates or overwrites)"@
    }

    open spec fn spec_schema(&self) -> JsonModel {
        WriteFileTool::spec_parameters()
    }

    fn name(&self) -> (name: &'static str) {
        "write_file"
    }

    fn description(&self) -> (text: &'static str) {
        "Write content to a file (creates or overwrites)"
    }

    fn schema(&self) -> (v: JsonValue) {
        self.parameters()
    }
}

impl ToolImpl for UpdateFileTool {
    open spec fn spec_name(&self) -> Seq<char> {
        "update_file"@
    }

    open spec fn spec_description(&self) -> Seq<char> {
        "Update a file by replacing specific content or appending to it"@
    }

    open spec fn spec_schema(&self) -> JsonModel {
        UpdateFileTool::spec_parameters()
    }

    fn name(&self) -> (name: &'static str) {
        "update_file"
    }

    fn description(&self) -> (text: &'static str) {
        "Update a file by replacing specific content or appending to it"
    }

    fn schema(&self) -> (v: JsonValue) {
        self.parameters()
    }
}

impl ToolImpl for SearchFilesTool {
    open spec fn spec_name(&self) -> Seq<char> {
        "search_files"@
    }

    open spec fn spec_description(&self) -> Seq<char> {
        "Search for text patterns across files in a directory"@
    }

    open spec fn spec_schema(&self) -> JsonModel {
        SearchFilesTool::spec_parameters()
    }

    fn name(&self) -> (name: &'static str) {
        "search_files"
    }

    fn description(&self) -> (text: &'static str) {
        "Search for text patterns across files in a directory"
    }

    fn schema(&self) -> (v: JsonValue) {
        self.parameters()
    }
}

impl ToolImpl for ListDirectoryTool {
    open spec fn spec_name(&self) -> Seq<char> {
        "list_directory"@
    }

    open spec fn spec_description(&self) -> Seq<char> {
        "List files and directories in a given path"@
    }

    open spec fn spec_schema(&self) -> JsonModel {
        ListDirectoryTool::spec_parameters()
    }

    fn name(&self) -> (name: &'static str) {
        "list_directory"
    }

    fn description(&self) -> (text: &'static str) {
        "List files and directories in a given path"
    }

    fn schema(&self) -> (v: JsonValue) {
        self.parameters()
    }
}

impl ToolImpl for FileInfoTool {
    open spec fn spec_name(&self) -> Seq<char> {
        "file_info"@
    }

    open spec fn spec_description(&self) -> Seq<char> {
        "Get detailed information about a file or directory"@
    }

    open spec fn spec_schema(&self) -> JsonModel {
        FileInfoTool::spec_parameters()
    }

    fn name(&self) -> (name: &'static str) {
        "file_info"
    }

    fn description(&self) -> (text: &'static str) {
        "Get detailed information about a file or directory"
    }

    fn schema(&self) -> (v: JsonValue) {
        self.parameters()
    }
}

impl Tool {
    /// The name of the tool.
    pub open spec fn spec_name(self) -> Seq<char> {
        match self {
            Tool::ReadFile(tool) => tool.spec_name(),
            Tool::WriteFile(tool) => tool.spec_name(),
            Tool::UpdateFile(tool) => tool.spec_name(),
            Tool::SearchFiles(tool) => tool.spec_name(),
            Tool::ListDirectory(tool) => tool.spec_name(),
            Tool::FileInfo(tool) => tool.spec_name(),
        }
    }

    /// What the tool does, in a sentence.
    pub open spec fn spec_description(self) -> Seq<char> {
        match self {
            Tool::ReadFile(tool) => tool.spec_description(),
            Tool::WriteFile(tool) => tool.spec_description(),
            Tool::UpdateFile(tool) => tool.spec_description(),
            Tool::SearchFiles(tool) => tool.spec_description(),
            Tool::ListDirectory(tool) => tool.spec_description(),
            Tool::FileInfo(tool) => tool.spec_description(),
        }
    }

    /// The schema of the tool's parameters.
    pub open spec fn spec_parameters(self) -> JsonModel {
        match self {
            Tool::ReadFile(tool) => tool.spec_schema(),
            Tool::WriteFile(tool) => tool.spec_schema(),
            Tool::UpdateFile(tool) => tool.spec_schema(),
            Tool::SearchFiles(tool) => tool.spec_schema(),
            Tool::ListDirectory(tool) => tool.spec_schema(),
            Tool::FileInfo(tool) => tool.spec_schema(),
        }
    }

    /// The name of the tool.
    pub fn name(&self) -> (name: &'static str)
        ensures
            name@ == self.spec_name(),
    {
        match self {
            Tool::ReadFile(tool) => tool.name(),
            Tool::WriteFile(tool) => tool.name(),
            Tool::UpdateFile(tool) => tool.name(),
            Tool::SearchFiles(tool) => tool.name(),
            Tool::ListDirectory(tool) => tool.name(),
            Tool::FileInfo(tool) => tool.name(),
        }
    }

    /// What the tool does, in a sentence.
    pub fn description(&self) -> (text: &'static str)
        ensures
            text@ == self.spec_description(),
    {
        match self {
            Tool::ReadFile(tool) => tool.description(),
            Tool::WriteFile(tool) => tool.description(),
            Tool::UpdateFile(tool) => tool.description(),
            Tool::SearchFiles(tool) => tool.description(),
            Tool::ListDirectory(tool) => tool.description(),
            Tool::FileInfo(tool) => tool.description(),
        }
    }

    /// The schema of the tool's parameters.
    pub fn parameters(&self) -> (v: JsonValue)
        ensures
            v@ == self.spec_parameters(),
    {
        match self {
            Tool::ReadFile(tool) => tool.schema(),
            Tool::WriteFile(tool) => tool.schema(),
            Tool::UpdateFile(tool) => tool.schema(),
            Tool::SearchFiles(tool) => tool.schema(),
            Tool::ListDirectory(tool) => tool.schema(),
            Tool::FileInfo(tool) => tool.schema(),
        }
    }
}

/// The file name extensions that mark a text file.
pub open spec fn spec_text_extensions() -> Seq<Seq<char>> {
    Seq::empty().push("txt"@).push("md"@).push("rs"@).push("toml"@).push("json"@).push(
        "yaml"@,
    ).push("yml"@).push("js"@).push("ts"@).push("py"@).push("html"@).push("css"@).push(
        "xml"@,
    ).push("csv"@).push("log"@).push("cfg"@).push("conf"@).push("ini"@).push("sh"@).push(
        "bash"@,
    ).push("zsh"@).push("fish"@).push("ps1"@).push("bat"@).push("cmd"@).push("c"@).push(
        "cpp"@,
    ).push("h"@).push("hpp"@).push("java"@).push("kt"@).push("swift"@).push("go"@).push(
        "rb"@,
    ).push("php"@).push("pl"@).push("r"@).push("sql"@).push("dockerfile"@)
}

/// The file name extensions that mark a text file.
pub fn text_extensions() -> (list: Vec<&'static str>)
    ensures
        strs_view(list@) == spec_text_extensions(),
{
    let mut list = no_strs();
    add_str(&mut list, "txt");
    add_str(&mut list, "md");
    add_str(&mut list, "rs");
    add_str(&mut list, "toml");
    add_str(&mut list, "json");
    add_str(&mut list, "yaml");
    add_str(&mut list, "yml");
    add_str(&mut list, "js");
    add_str(&mut list, "ts");
    add_str(&mut list, "py");
    add_str(&mut list, "html");
    add_str(&mut list, "css");
    add_str(&mut list, "xml");
    add_str(&mut list, "csv");
    add_str(&mut list, "log");
    add_str(&mut list, "cfg");
    add_str(&mut list, "conf");
    add_str(&mut list, "ini");
    add_str(&mut list, "sh");
    add_str(&mut list, "bash");
    add_str(&mut list, "zsh");
    add_str(&mut list, "fish");
    add_str(&mut list, "ps1");
    add_str(&mut list, "bat");
    add_str(&mut list, "cmd");
    add_str(&mut list, "c");
    add_str(&mut list, "cpp");
    add_str(&mut list, "h");
    add_str(&mut list, "hpp");
    add_str(&mut list, "java");
    add_str(&mut list, "kt");
    add_str(&mut list, "swift");
    add_str(&mut list, "go");
    add_str(&mut list, "rb");
    add_str(&mut list, "php");
    add_str(&mut list, "pl");
    add_str(&mut list, "r");
    add_str(&mut list, "sql");
    add_str(&mut list, "dockerfile");
    list
}

/// A path names a text file when its extension, in lower case, is one of
/// the known ones.
pub open spec fn spec_is_text_file(path: Seq<char>) -> bool {
    match spec_extension(path) {
        Some(ext) => spec_text_extensions().contains(lowercase_of(ext)),
        None => false,
    }
}

/// Whether a path names a text file, going by its extension.
pub fn is_text_file(path: &str) -> (r: bool)
    ensures
        r == spec_is_text_file(path@),
{
    let p = chars_of(path);
    match extension(p.as_slice()) {
        Some(ext) => {
            let lower = lowercase_chars(ext.as_slice());
            let list = text_extensions();
            is_listed(lower.as_slice(), &list)
        },
        None => false,
    }
}

/// What `read_file` reports of a file that was read.
pub open spec fn read_data(path: Seq<char>, content: Seq<char>) -> JsonModel {
    JsonModel::Object(
        Seq::empty().push(("content"@, JsonModel::Text(content))).push(
            ("path"@, JsonModel::Text(path)),
        ).push(("size"@, number_model(byte_len(content) as int))),
    )
}

/// What `read_file` says of a file that was read.
pub open spec fn read_message(path: Seq<char>, content: Seq<char>) -> Seq<char> {
    "Successfully read "@ + spec_decimal(byte_len(content)) + " bytes from "@ + path
}

/// The result of `read_file` once it is known what stands at the path, where
/// that settles it: only a file is read.
pub open spec fn read_probe_result(path: Seq<char>, kind: PathKind) -> Option<ToolResultModel> {
    match kind {
        PathKind::File => None,
        PathKind::Missing => Some(ToolResultModel::error("File does not exist: "@ + path)),
        _ => Some(ToolResultModel::error("Path is not a file: "@ + path)),
    }
}

/// The result of `read_file`, from how reading went.
pub open spec fn read_result(path: Seq<char>, read: Result<String, String>) -> ToolResultModel {
    match read {
        Ok(content) => ToolResultModel::success(
            read_data(path, content@),
            Some(read_message(path, content@)),
        ),
        Err(reason) => ToolResultModel::error("Failed to read file: "@ + reason@),
    }
}

/// The view of an optional result.
pub open spec fn opt_result(result: Option<ToolResult>) -> Option<ToolResultModel> {
    match result {
        Some(r) => Some(r@),
        None => None,
    }
}

impl ReadFileTool {
    /// The path to read: the parameter `path`, which must be a string.
    pub fn target<'a>(&self, parameters: &'a Vec<(String, JsonValue)>) -> (r: Result<
        &'a String,
        ToolError,
    >)
        ensures
            match r {
                Ok(path) => spec_param_text(fields_view(parameters@), "path"@) == Some(path@),
                Err(e) => e == ToolError::MissingPath && spec_param_text(
                    fields_view(parameters@),
                    "path"@,
                ) is None,
            },
    {
        match param_text(parameters, "path") {
            Some(path) => Ok(path),
            None => Err(ToolError::MissingPath),
        }
    }

    /// What to make of what stands at the path: only a file is read.
    pub fn on_probe(&self, path: &str, kind: PathKind) -> (r: Option<ToolResult>)
        ensures
            opt_result(r) == read_probe_result(path@, kind),
    {
        match kind {
            PathKind::File => None,
            PathKind::Missing => Some(ToolResult::error(concat2("File does not exist: ", path))),
            _ => Some(ToolResult::error(concat2("Path is not a file: ", path))),
        }
    }

    /// The result, from how reading went: the content, or the reason why
    /// there is none.
    pub fn on_read(&self, path: &str, read: Result<String, String>) -> (result: ToolResult)
        ensures
            result@ == read_result(path@, read),
    {
        match read {
            Ok(content) => {
                let size = byte_length(content.as_str());
                let count = decimal_string(size as u128);
                let message = concat4(
                    "Successfully read ",
                    count.as_str(),
                    " bytes from ",
                    path,
                );
                let mut data = no_members();
                add_member(&mut data, "content", JsonValue::Text(content));
                add_member(&mut data, "path", JsonValue::text(path));
                add_member(&mut data, "size", JsonValue::unsigned(size as u64));
                ToolResult::success(JsonValue::Object(data), Some(message))
            },
            Err(reason) => ToolResult::error(concat2("Failed to read file: ", reason.as_str())),
        }
    }
}

/// What `write_file` is to write, and where.
#[derive(Debug, PartialEq, Eq)]
pub struct WritePlan {
    /// The file to write.
    pub path: String,
    /// What to write.
    pub content: String,
    /// The directory to create first, unless it exists.
    pub parent: Option<String>,
}

/// What `write_file` reports of a file that was written.
pub open spec fn write_data(path: Seq<char>, content: Seq<char>) -> JsonModel {
    JsonModel::Object(
        Seq::empty().push(("path"@, JsonModel::Text(path))).push(
            ("size"@, number_model(byte_len(content) as int)),
        ),
    )
}

/// What `write_file` says of a file that was written.
pub open spec fn write_message(path: Seq<char>, content: Seq<char>) -> Seq<char> {
    "Successfully wrote "@ + spec_decimal(byte_len(content)) + " bytes to "@ + path
}

/// The result of `write_file`, from how writing went.
pub open spec fn write_result(path: Seq<char>, content: Seq<char>, outcome: WriteOutcome) -> ToolResultModel {
    match outcome {
        WriteOutcome::Written => ToolResultModel::changed(
            write_data(path, content),
            write_message(path, content),
            path,
        ),
        WriteOutcome::DirectoriesFailed(reason) => ToolResultModel::error(
            "Failed to create directories: "@ + reason@,
        ),
        WriteOutcome::WriteFailed(reason) => ToolResultModel::error(
            "Failed to write file: "@ + reason@,
        ),
    }
}

impl WriteFileTool {
    /// What to write: the parameters `path` and `content`, both strings.
    pub fn plan(&self, parameters: &Vec<(String, JsonValue)>) -> (r: Result<WritePlan, ToolError>)
        ensures
            match r {
                Ok(plan) => {
                    &&& spec_param_text(fields_view(parameters@), "path"@) == Some(plan.path@)
                    &&& spec_param_text(fields_view(parameters@), "content"@) == Some(
                        plan.content@,
                    )
                    &&& opt_view(plan.parent) == spec_parent(plan.path@)
                },
                Err(e) => if spec_param_text(fields_view(parameters@), "path"@) is None {
                    e == ToolError::MissingPath
                } else {
                    e == ToolError::MissingContent && spec_param_text(
                        fields_view(parameters@),
                        "content"@,
                    ) is None
                },
            },
    {
        let path = match param_text(parameters, "path") {
            Some(path) => path,
            None => { return Err(ToolError::MissingPath); },
        };
        let content = match param_text(parameters, "content") {
            Some(content) => content,
            None => { return Err(ToolError::MissingContent); },
        };
        let p = chars_of(path.as_str());
        let dir = match parent(p.as_slice()) {
            Some(d) => Some(string_of(d.as_slice())),
            None => None,
        };
        Ok(WritePlan { path: path.clone(), content: content.clone(), parent: dir })
    }

    /// The result, from how writing went.
    pub fn on_written(&self, plan: &WritePlan, outcome: WriteOutcome) -> (result: ToolResult)
        ensures
            result@ == write_result(plan.path@, plan.content@, outcome),
    {
        match outcome {
            WriteOutcome::Written => {
                let size = byte_length(plan.content.as_str());
                let count = decimal_string(size as u128);
                let message = concat4(
                    "Successfully wrote ",
                    count.as_str(),
                    " bytes to ",
                    plan.path.as_str(),
                );
                let mut data = no_members();
                add_member(&mut data, "path", JsonValue::text(plan.path.as_str()));
                add_member(&mut data, "size", JsonValue::unsigned(size as u64));
                let mut files: Vec<String> = Vec::new();
                files.push(plan.path.clone());
                assert(strings_view(files@) =~= seq![plan.path@]);
                ToolResult::success_with_files(JsonValue::Object(data), Some(message), files)
            },
            WriteOutcome::DirectoriesFailed(reason) => ToolResult::error(
                concat2("Failed to create directories: ", reason.as_str()),
            ),
            WriteOutcome::WriteFailed(reason) => ToolResult::error(
                concat2("Failed to write file: ", reason.as_str()),
            ),
        }
    }
}

/// What an update makes of a file's content.
#[derive(Debug, PartialEq, Eq)]
pub enum Edit {
    /// The new content.
    Text(String),
    /// The line number is beyond the end of the file.
    OutOfRange(u64),
    /// The operation is none of the four.
    UnknownOperation,
}

/// The mathematical form of an `Edit`.
pub enum EditModel {
    Text(Seq<char>),
    OutOfRange(u64),
    UnknownOperation,
}

impl View for Edit {
    type V = EditModel;

    open spec fn view(&self) -> EditModel {
        match self {
            Edit::Text(s) => EditModel::Text(s@),
            Edit::OutOfRange(n) => EditModel::OutOfRange(*n),
            Edit::UnknownOperation => EditModel::UnknownOperation,
        }
    }
}

/// The index before which line number `n`, counted from one, is inserted.
pub open spec fn insert_index(n: u64) -> int {
    if n == 0 {
        0
    } else {
        n - 1
    }
}

/// What the operation makes of the content.
///
/// `replace` puts the replacement (nothing, where there is none) for every
/// occurrence of the text searched for; `append` and `prepend` add the
/// replacement after or before the content, a line feed between them;
/// `insert_at_line` makes the replacement a line of its own before the line
/// of the given number and joins the lines with line feeds.
pub open spec fn spec_edit(
    operation: Seq<char>,
    original: Seq<char>,
    parameters: Seq<(Seq<char>, JsonModel)>,
) -> Result<EditModel, ToolError> {
    let replacement = spec_param_text(parameters, "replacement"@);
    if operation == "replace"@ {
        match spec_param_text(parameters, "search"@) {
            None => Err(ToolError::MissingSearch),
            Some(search) => Ok(
                EditModel::Text(
                    spec_replace(
                        original,
                        search,
                        match replacement {
                            Some(r) => r,
                            None => Seq::empty(),
                        },
                    ),
                ),
            ),
        }
    } else if operation == "append"@ {
        match replacement {
            None => Err(ToolError::MissingAppendText),
            Some(r) => Ok(EditModel::Text(original + seq!['\n'] + r)),
        }
    } else if operation == "prepend"@ {
        match replacement {
            None => Err(ToolError::MissingPrependText),
            Some(r) => Ok(EditModel::Text(r + seq!['\n'] + original)),
        }
    } else if operation == "insert_at_line"@ {
        match spec_param_u64(parameters, "line_number"@) {
            None => Err(ToolError::MissingLineNumber),
            Some(n) => match replacement {
                None => Err(ToolError::MissingInsertText),
                Some(r) => if insert_index(n) <= spec_lines(original).len() {
                    Ok(
                        EditModel::Text(
                            spec_join(spec_lines(original).insert(insert_index(n), r), seq!['\n']),
                        ),
                    )
                } else {
                    Ok(EditModel::OutOfRange(n))
                },
            },
        }
    } else {
        Ok(EditModel::UnknownOperation)
    }
}

/// What `update_file` reports of a file that was updated.
pub open spec fn update_data(
    path: Seq<char>,
    operation: Seq<char>,
    original_size: int,
    new_size: int,
) -> JsonModel {
    JsonModel::Object(
        Seq::empty().push(("new_size"@, number_model(new_size))).push(
            ("operation"@, JsonModel::Text(operation)),
        ).push(("original_size"@, number_model(original_size))).push(
            ("path"@, JsonModel::Text(path)),
        ),
    )
}

/// What `update_file` says of a file that was updated.
pub open spec fn update_message(path: Seq<char>, operation: Seq<char>) -> Seq<char> {
    "Successfully updated "@ + path + " using "@ + operation + " operation"@
}

/// What `update_file` does after reading the file.
#[derive(Debug, PartialEq, Eq)]
pub enum UpdateStep {
    /// Nothing more: the result.
    Stop(ToolResult),
    /// Write the new content in place of the original.
    Write { content: String, original_size: usize },
}

/// The result of `update_file` once it is known what stands at the path,
/// where that settles it: there has to be something.
pub open spec fn update_probe_result(path: Seq<char>, kind: PathKind) -> Option<ToolResultModel> {
    match kind {
        PathKind::Missing => Some(ToolResultModel::error("File does not exist: "@ + path)),
        _ => None,
    }
}

/// The result of `update_file` where the file could not be read or the
/// operation cannot be done; `None` where there is new content to write.
pub open spec fn update_stop_result(operation: Seq<char>, edit: Result<EditModel, Seq<char>>) -> Option<
    ToolResultModel,
> {
    match edit {
        Err(reason) => Some(ToolResultModel::error("Failed to read file: "@ + reason)),
        Ok(EditModel::Text(_)) => None,
        Ok(EditModel::OutOfRange(n)) => Some(
            ToolResultModel::error("Line number "@ + spec_decimal(n as nat) + " is out of range"@),
        ),
        Ok(EditModel::UnknownOperation) => Some(
            ToolResultModel::error("Unknown operation: "@ + operation),
        ),
    }
}

/// The result of `update_file`, from how writing the new content went.
pub open spec fn update_result(
    path: Seq<char>,
    operation: Seq<char>,
    original_size: int,
    new_size: int,
    outcome: WriteOutcome,
) -> ToolResultModel {
    match outcome {
        WriteOutcome::Written => ToolResultModel::changed(
            update_data(path, operation, original_size, new_size),
            update_message(path, operation),
            path,
        ),
        WriteOutcome::DirectoriesFailed(reason) => ToolResultModel::error(
            "Failed to update file: "@ + reason@,
        ),
        WriteOutcome::WriteFailed(reason) => ToolResultModel::error(
            "Failed to update file: "@ + reason@,
        ),
    }
}

fn line_feed() -> (v: Vec<char>)
    ensures
        v@ == seq!['\n'],
{
    let mut v: Vec<char> = Vec::new();
    v.push('\n');
    assert(v@ =~= seq!['\n']);
    v
}

impl UpdateFileTool {
    /// The file to update and the operation: the parameters `path` and
    /// `operation`, both strings.
    pub fn target<'a>(&self, parameters: &'a Vec<(String, JsonValue)>) -> (r: Result<
        (&'a String, &'a String),
        ToolError,
    >)
        ensures
            match r {
                Ok((path, operation)) => {
                    &&& spec_param_text(fields_view(parameters@), "path"@) == Some(path@)
                    &&& spec_param_text(fields_view(parameters@), "operation"@) == Some(
                        operation@,
                    )
                },
                Err(e) => if spec_param_text(fields_view(parameters@), "path"@) is None {
                    e == ToolError::MissingPath
                } else {
                    e == ToolError::MissingOperation && spec_param_text(
                        fields_view(parameters@),
                        "operation"@,
                    ) is None
                },
            },
    {
        let path = match param_text(parameters, "path") {
            Some(path) => path,
            None => { return Err(ToolError::MissingPath); },
        };
        let operation = match param_text(parameters, "operation") {
            Some(operation) => operation,
            None => { return Err(ToolError::MissingOperation); },
        };
        Ok((path, operation))
    }

    /// What to make of what stands at the path: it has to exist.
    pub fn on_probe(&self, path: &str, kind: PathKind) -> (r: Option<ToolResult>)
        ensures
            opt_result(r) == update_probe_result(path@, kind),
    {
        match kind {
            PathKind::Missing => Some(ToolResult::error(concat2("File does not exist: ", path))),
            _ => None,
        }
    }

    /// Applies the operation to the content of the file.
#[verifier::rlimit(40)]
    pub fn edit(&self, operation: &str, original: &str, parameters: &Vec<(String, JsonValue)>) -> (r:
        Result<Edit, ToolError>)
        ensures
            match r {
                Ok(edit) => spec_edit(operation@, original@, fields_view(parameters@)) == Ok::<
                    EditModel,
                    ToolError,
                >(edit@),
                Err(e) => spec_edit(operation@, original@, fields_view(parameters@)) == Err::<
                    EditModel,
                    ToolError,
                >(e),
            },
    {
        let replacement = param_text(parameters, "replacement");
        let content = chars_of(original);
        proof {
            reveal_strlit("\n");
            assert("\n"@ =~= seq!['\n']);
        }
        if str_eq(operation, "replace") {
            let search = match param_text(parameters, "search") {
                Some(search) => chars_of(search.as_str()),
                None => { return Err(ToolError::MissingSearch); },
            };
            let with = match replacement {
                Some(r) => chars_of(r.as_str()),
                None => Vec::new(),
            };
            let out = replace_all(content.as_slice(), search.as_slice(), with.as_slice());
            Ok(Edit::Text(string_of(out.as_slice())))
        } else if str_eq(operation, "append") {
            match replacement {
                Some(r) => Ok(Edit::Text(concat3(original, "\n", r.as_str()))),
                None => Err(ToolError::MissingAppendText),
            }
        } else if str_eq(operation, "prepend") {
            match replacement {
                Some(r) => Ok(Edit::Text(concat3(r.as_str(), "\n", original))),
                None => Err(ToolError::MissingPrependText),
            }
        } else if str_eq(operation, "insert_at_line") {
            let n = match param_u64(parameters, "line_number") {
                Some(n) => n,
                None => { return Err(ToolError::MissingLineNumber); },
            };
            let text = match replacement {
                Some(r) => chars_of(r.as_str()),
                None => { return Err(ToolError::MissingInsertText); },
            };
            let mut lines = split_lines(content.as_slice());
            let index: u64 = if n == 0 {
                0
            } else {
                n - 1
            };
            if index <= lines.len() as u64 {
                let ghost before = lines@;
                lines.insert(index as usize, text);
                assert(nested(lines@) =~= nested(before).insert(index as int, text@));
                let out = join(&lines, line_feed().as_slice());
                Ok(Edit::Text(string_of(out.as_slice())))
            } else {
                Ok(Edit::OutOfRange(n))
            }
        } else {
            Ok(Edit::UnknownOperation)
        }
    }

    /// What to do once the file was read, or could not be.
    pub fn on_read(
        &self,
        operation: &str,
        parameters: &Vec<(String, JsonValue)>,
        read: Result<String, String>,
    ) -> (r: Result<UpdateStep, ToolError>)
        ensures
            match read {
                Err(reason) => r is Ok && r->Ok_0 is Stop && Some(r->Ok_0->Stop_0@)
                    == update_stop_result(operation@, Err(reason@)),
                Ok(original) => match spec_edit(operation@, original@, fields_view(parameters@)) {
                    Err(e) => r == Err::<UpdateStep, ToolError>(e),
                    Ok(EditModel::Text(content)) => r is Ok && r->Ok_0 is Write
                        && r->Ok_0->content@ == content && r->Ok_0->original_size == byte_len(
                        original@,
                    ),
                    Ok(edit) => r is Ok && r->Ok_0 is Stop && Some(r->Ok_0->Stop_0@)
                        == update_stop_result(operation@, Ok(edit)),
                },
            },
    {
        let original = match read {
            Ok(original) => original,
            Err(reason) => {
                return Ok(
                    UpdateStep::Stop(
                        ToolResult::error(concat2("Failed to read file: ", reason.as_str())),
                    ),
                );
            },
        };
        match self.edit(operation, original.as_str(), parameters) {
            Err(e) => Err(e),
            Ok(Edit::Text(content)) => Ok(
                UpdateStep::Write { content, original_size: byte_length(original.as_str()) },
            ),
            Ok(Edit::OutOfRange(n)) => Ok(
                UpdateStep::Stop(
                    ToolResult::error(
                        concat3("Line number ", decimal_string(n as u128).as_str(), " is out of range"),
                    ),
                ),
            ),
            Ok(Edit::UnknownOperation) => Ok(
                UpdateStep::Stop(ToolResult::error(concat2("Unknown operation: ", operation))),
            ),
        }
    }

    /// The result, from how writing the new content went.
    pub fn on_written(
        &self,
        path: &str,
        operation: &str,
        original_size: usize,
        new_size: usize,
        outcome: WriteOutcome,
    ) -> (result: ToolResult)
        ensures
            result@ == update_result(
                path@,
                operation@,
                original_size as int,
                new_size as int,
                outcome,
            ),
    {
        match outcome {
            WriteOutcome::Written => {
                let message = concat5(
                    "Successfully updated ",
                    path,
                    " using ",
                    operation,
                    " operation",
                );
                let mut data = no_members();
                add_member(&mut data, "new_size", JsonValue::unsigned(new_size as u64));
                add_member(&mut data, "operation", JsonValue::text(operation));
                add_member(&mut data, "original_size", JsonValue::unsigned(original_size as u64));
                add_member(&mut data, "path", JsonValue::text(path));
                let mut files: Vec<String> = Vec::new();
                files.push(path.to_owned());
                assert(strings_view(files@) =~= seq![path@]);
                ToolResult::success_with_files(JsonValue::Object(data), Some(message), files)
            },
            WriteOutcome::DirectoriesFailed(reason) => ToolResult::error(
                concat2("Failed to update file: ", reason.as_str()),
            ),
            WriteOutcome::WriteFailed(reason) => ToolResult::error(
                concat2("Failed to update file: ", reason.as_str()),
            ),
        }
    }
}

/// The pattern that a search compiles: the one given, or, where that does
/// not compile, the one given taken literally; without case sensitivity
/// either is marked to ignore case. Where neither compiles, the error of
/// the second.
pub open spec fn spec_search_regex(pattern: Seq<char>, case_sensitive: bool) -> Result<
    Seq<char>,
    Seq<char>,
> {
    let first = if case_sensitive {
        pattern
    } else {
        "(?i)"@ + pattern
    };
    let second = if case_sensitive {
        spec_escape(pattern)
    } else {
        "(?i)"@ + spec_escape(pattern)
    };
    if regex_valid(first) {
        Ok(first)
    } else {
        match compile_failure(second) {
            None => Ok(second),
            Some(reason) => Err(reason),
        }
    }
}

/// Chooses the pattern that a search compiles.
pub fn search_regex(pattern: &str, case_sensitive: bool) -> (r: Result<String, String>)
    ensures
        match r {
            Ok(regex) => spec_search_regex(pattern@, case_sensitive) == Ok::<Seq<char>, Seq<char>>(
                regex@,
            ),
            Err(reason) => spec_search_regex(pattern@, case_sensitive) == Err::<
                Seq<char>,
                Seq<char>,
            >(reason@),
        },
{
    let first = if case_sensitive {
        pattern.to_owned()
    } else {
        concat2("(?i)", pattern)
    };
    if compile_check(first.as_str()).is_ok() {
        return Ok(first);
    }
    let literal = escape(pattern);
    let second = if case_sensitive {
        literal
    } else {
        concat2("(?i)", literal.as_str())
    };
    match compile_check(second.as_str()) {
        Ok(_) => Ok(second),
        Err(reason) => Err(reason),
    }
}

/// The matches of a line, as the search reports them.
pub open spec fn spans_model(spans: Seq<(usize, usize, Seq<char>)>) -> Seq<JsonModel>
    decreases spans.len(),
{
    if spans.len() == 0 {
        Seq::empty()
    } else {
        spans_model(spans.drop_last()).push(
            JsonModel::Object(
                Seq::empty().push(("end"@, number_model(spans.last().1 as int))).push(
                    ("start"@, number_model(spans.last().0 as int)),
                ).push(("text"@, JsonModel::Text(spans.last().2))),
            ),
        )
    }
}

/// What the search reports of line `index` (counted from zero) of a file.
pub open spec fn line_result(regex: Seq<char>, path: Seq<char>, index: int, line: Seq<char>) -> JsonModel {
    JsonModel::Object(
        Seq::empty().push(("content"@, JsonModel::Text(line))).push(
            ("file"@, JsonModel::Text(path)),
        ).push(("line"@, number_model(index + 1))).push(
            ("matches"@, JsonModel::Array(spans_model(regex_spans(regex, line)))),
        ),
    )
}

/// The results after the lines from `index` on were searched: each line
/// that the pattern matches adds a result, and the search of the file ends
/// once there are `max` results.
pub open spec fn scan_lines(
    regex: Seq<char>,
    path: Seq<char>,
    lines: Seq<Seq<char>>,
    index: int,
    results: Seq<JsonModel>,
    max: u64,
) -> Seq<JsonModel>
    decreases lines.len() - index,
{
    if index < 0 || index >= lines.len() {
        results
    } else if spec_is_match(regex, lines[index]) {
        let more = results.push(line_result(regex, path, index, lines[index]));
        if more.len() >= max {
            more
        } else {
            scan_lines(regex, path, lines, index + 1, more, max)
        }
    } else {
        scan_lines(regex, path, lines, index + 1, results, max)
    }
}

/// What a search is to do.
#[derive(Debug, PartialEq, Eq)]
pub struct SearchPlan {
    /// The pattern as it was given.
    pub pattern: String,
    /// The directory to walk.
    pub directory: String,
    /// The glob that file names have to match, if any.
    pub file_pattern: Option<String>,
    /// The pattern that is compiled.
    pub regex: String,
    /// The number of results at which the search ends.
    pub max_results: u64,
}

/// How a search begins.
#[derive(Debug, PartialEq, Eq)]
pub enum SearchStart {
    /// With a walk of the directory.
    Walk(SearchPlan),
    /// Not at all: the result.
    Stop(ToolResult),
}

impl SearchPlan {
    /// Whether the file at `path` is searched: it is a file, its name
    /// matches the glob if there is one, and it is a text file.
    pub open spec fn spec_accepts(self, path: Seq<char>, is_file: bool) -> bool {
        &&& is_file
        &&& match self.file_pattern {
            Some(glob) => match spec_file_name(path) {
                Some(name) => spec_glob_match(glob@, name),
                None => false,
            },
            None => true,
        }
        &&& spec_is_text_file(path)
    }

    /// Whether the file at `path` is searched.
    pub fn accepts(&self, path: &str, is_file: bool) -> (r: bool)
        ensures
            r == self.spec_accepts(path@, is_file),
    {
        if !is_file {
            return false;
        }
        match &self.file_pattern {
            Some(glob) => {
                let p = chars_of(path);
                match file_name(p.as_slice()) {
                    Some(name) => {
                        let n = string_of(name.as_slice());
                        if !glob_match(glob.as_str(), n.as_str()) {
                            return false;
                        }
                    },
                    None => { return false; },
                }
            },
            None => {},
        }
        is_text_file(path)
    }
}

fn span_value(span: &MatchSpan) -> (v: JsonValue)
    ensures
        v@ == JsonModel::Object(
            Seq::empty().push(("end"@, number_model(span.end as int))).push(
                ("start"@, number_model(span.start as int)),
            ).push(("text"@, JsonModel::Text(span.text@))),
        ),
{
    let mut f = no_members();
    add_member(&mut f, "end", JsonValue::unsigned(span.end as u64));
    add_member(&mut f, "start", JsonValue::unsigned(span.start as u64));
    add_member(&mut f, "text", JsonValue::text(span.text.as_str()));
    JsonValue::Object(f)
}

fn spans_value(spans: &Vec<MatchSpan>) -> (items: Vec<JsonValue>)
    ensures
        items_view(items@) == spans_model(spans_view(spans@)),
{
    let mut items = no_items();
    let mut i: usize = 0;
    assert(spans_view(spans@).take(0) =~= Seq::empty());
    while i < spans.len()
        invariant
            i <= spans.len(),
            items_view(items@) == spans_model(spans_view(spans@).take(i as int)),
        decreases spans.len() - i,
    {
        let ghost next = spans_view(spans@).take(i + 1);
        assert(next.drop_last() =~= spans_view(spans@).take(i as int));
        assert(next.last() == (spans@[i as int].start, spans@[i as int].end, spans@[i as int].text@));
        add_item(&mut items, span_value(&spans[i]));
        i += 1;
    }
    assert(spans_view(spans@).take(spans@.len() as int) =~= spans_view(spans@));
    items
}

/// Searches the lines of one file, adding to the results found so far.
#[verifier::rlimit(40)]
pub fn scan_file(regex: &str, path: &str, content: &str, results: &mut Vec<JsonValue>, max: u64)
    ensures
        items_view(final(results)@) == scan_lines(
            regex@,
            path@,
            spec_lines(content@),
            0,
            items_view(old(results)@),
            max,
        ),
{
    let text = chars_of(content);
    let lines = split_lines(text.as_slice());
    let ghost start = items_view(results@);
    let mut i: usize = 0;
    while i < lines.len()
        invariant
            i <= lines.len(),
            nested(lines@) == spec_lines(content@),
            start == items_view(old(results)@),
            scan_lines(regex@, path@, nested(lines@), i as int, items_view(results@), max)
                == scan_lines(regex@, path@, nested(lines@), 0, start, max),
        decreases lines.len() - i,
    {
        let line = string_of(lines[i].as_slice());
        assert(nested(lines@)[i as int] == line@);
        if is_match(regex, line.as_str()) {
            let spans = find_spans(regex, line.as_str());
            let mut f = no_members();
            add_member(&mut f, "content", JsonValue::text(line.as_str()));
            add_member(&mut f, "file", JsonValue::text(path));
            add_member(&mut f, "line", JsonValue::unsigned((i + 1) as u64));
            add_member(&mut f, "matches", JsonValue::Array(spans_value(&spans)));
            let ghost before = items_view(results@);
            add_item(results, JsonValue::Object(f));
            proof {
                lemma_items_view(results@);
                assert(items_view(results@).len() == results@.len());
            }
            if results.len() as u64 >= max {
                return ;
            }
        }
        i += 1;
    }
}

/// What `search_files` reports.
pub open spec fn search_data(
    pattern: Seq<char>,
    directory: Seq<char>,
    files_searched: int,
    results: Seq<JsonModel>,
) -> JsonModel {
    JsonModel::Object(
        Seq::empty().push(("directory"@, JsonModel::Text(directory))).push(
            ("files_searched"@, number_model(files_searched)),
        ).push(("matches_found"@, number_model(results.len() as int))).push(
            ("pattern"@, JsonModel::Text(pattern)),
        ).push(("results"@, JsonModel::Array(results))),
    )
}

/// What `search_files` says.
pub open spec fn search_message(files_searched: int, found: int) -> Seq<char> {
    "Found "@ + spec_decimal(found as nat) + " matches in "@ + spec_decimal(files_searched as nat)
        + " files"@
}

impl SearchFilesTool {
    /// How the search begins: the parameter `pattern` must be a string; the
    /// directory is `.`, the search ignores case and ends at 100 results
    /// unless the parameters say otherwise.
#[verifier::rlimit(40)]
    pub fn start(&self, parameters: &Vec<(String, JsonValue)>) -> (r: Result<SearchStart, ToolError>)
        ensures
            match spec_param_text(fields_view(parameters@), "pattern"@) {
                None => r == Err::<SearchStart, ToolError>(ToolError::MissingPattern),
                Some(pattern) => r is Ok && match spec_search_regex(
                    pattern,
                    spec_param_bool(fields_view(parameters@), "case_sensitive"@) == Some(true),
                ) {
                    Err(reason) => r->Ok_0 is Stop && r->Ok_0->Stop_0@ == ToolResultModel::error(
                        "Invalid pattern: "@ + reason,
                    ),
                    Ok(regex) => {
                        &&& r->Ok_0 is Walk
                        &&& r->Ok_0->Walk_0.pattern@ == pattern
                        &&& r->Ok_0->Walk_0.regex@ == regex
                        &&& regex_valid(regex)
                        &&& r->Ok_0->Walk_0.directory@ == match spec_param_text(
                            fields_view(parameters@),
                            "directory"@,
                        ) {
                            Some(d) => d,
                            None => "."@,
                        }
                        &&& opt_view(r->Ok_0->Walk_0.file_pattern) == spec_param_text(
                            fields_view(parameters@),
                            "file_pattern"@,
                        )
                        &&& r->Ok_0->Walk_0.max_results == match spec_param_u64(
                            fields_view(parameters@),
                            "max_results"@,
                        ) {
                            Some(n) => n,
                            None => 100,
                        }
                    },
                },
            },
    {
        let pattern = match param_text(parameters, "pattern") {
            Some(pattern) => pattern,
            None => { return Err(ToolError::MissingPattern); },
        };
        let directory = match param_text(parameters, "directory") {
            Some(d) => d.clone(),
            None => ".".to_owned(),
        };
        let file_pattern = match param_text(parameters, "file_pattern") {
            Some(f) => Some(f.clone()),
            None => None,
        };
        let case_sensitive = match param_bool(parameters, "case_sensitive") {
            Some(b) => b,
            None => false,
        };
        let max_results = match param_u64(parameters, "max_results") {
            Some(n) => n,
            None => 100,
        };
        match search_regex(pattern.as_str(), case_sensitive) {
            Ok(regex) => Ok(
                SearchStart::Walk(
                    SearchPlan {
                        pattern: pattern.clone(),
                        directory,
                        file_pattern,
                        regex,
                        max_results,
                    },
                ),
            ),
            Err(reason) => Ok(
                SearchStart::Stop(
                    ToolResult::error(concat2("Invalid pattern: ", reason.as_str())),
                ),
            ),
        }
    }

    /// The result of a search that looked into `files_searched` files.
    pub fn finish(&self, plan: &SearchPlan, files_searched: usize, results: Vec<JsonValue>) -> (result:
        ToolResult)
        ensures
            result@ == ToolResultModel::success(
                search_data(
                    plan.pattern@,
                    plan.directory@,
                    files_searched as int,
                    items_view(results@),
                ),
                Some(search_message(files_searched as int, results@.len() as int)),
            ),
    {
        proof {
            lemma_items_view(results@);
        }
        let found = results.len();
        let message = concat5(
            "Found ",
            decimal_string(found as u128).as_str(),
            " matches in ",
            decimal_string(files_searched as u128).as_str(),
            " files",
        );
        let mut data = no_members();
        add_member(&mut data, "directory", JsonValue::text(plan.directory.as_str()));
        add_member(&mut data, "files_searched", JsonValue::unsigned(files_searched as u64));
        add_member(&mut data, "matches_found", JsonValue::unsigned(found as u64));
        add_member(&mut data, "pattern", JsonValue::text(plan.pattern.as_str()));
        add_member(&mut data, "results", JsonValue::Array(results));
        ToolResult::success(JsonValue::Object(data), Some(message))
    }
}

/// What a listing is to do.
#[derive(Debug, PartialEq, Eq)]
pub struct ListPlan {
    /// The directory to list.
    pub path: String,
    /// Whether to list what lies below it too.
    pub recursive: bool,
    /// Whether to list entries whose name begins with a dot.
    pub show_hidden: bool,
}

/// What was found of one entry of a directory.
#[derive(Debug, PartialEq, Eq)]
pub struct EntryFacts {
    /// The path of the entry.
    pub path: String,
    /// Its file name; empty where it has none.
    pub name: String,
    /// Whether it is a directory.
    pub is_directory: bool,
    /// Its size in bytes; zero where it is unknown.
    pub size: u64,
    /// When it was last modified, in seconds since 1970, if known.
    pub modified: Option<u64>,
}

/// A number, or null where there is none.
pub open spec fn optional_number(n: Option<u64>) -> JsonModel {
    match n {
        Some(k) => JsonModel::Number(JsonNumber::Unsigned(k)),
        None => JsonModel::Null,
    }
}

/// Whether a listing leaves an entry out: hidden entries are not shown, and
/// an entry is hidden when its name begins with a dot (in a recursive
/// listing the name `.` does not count).
pub open spec fn spec_is_skipped(name: Seq<char>, recursive: bool, show_hidden: bool) -> bool {
    &&& !show_hidden
    &&& name.len() > 0
    &&& name[0] == '.'
    &&& (recursive ==> name != seq!['.'])
}

/// What a listing reports of one entry.
pub open spec fn entry_model(entry: EntryFacts) -> JsonModel {
    JsonModel::Object(
        Seq::empty().push(("modified"@, optional_number(entry.modified))).push(
            ("name"@, JsonModel::Text(entry.name@)),
        ).push(("path"@, JsonModel::Text(entry.path@))).push(
            ("size"@, JsonModel::Number(JsonNumber::Unsigned(entry.size))),
        ).push(
            (
                "type"@,
                JsonModel::Text(
                    if entry.is_directory {
                        "directory"@
                    } else {
                        "file"@
                    },
                ),
            ),
        ),
    )
}

/// What a listing reports of the entries that it does not leave out.
pub open spec fn listed_entries(entries: Seq<EntryFacts>, recursive: bool, show_hidden: bool) -> Seq<
    JsonModel,
>
    decreases entries.len(),
{
    if entries.len() == 0 {
        Seq::empty()
    } else if spec_is_skipped(entries.last().name@, recursive, show_hidden) {
        listed_entries(entries.drop_last(), recursive, show_hidden)
    } else {
        listed_entries(entries.drop_last(), recursive, show_hidden).push(
            entry_model(entries.last()),
        )
    }
}

/// What `list_directory` reports.
pub open spec fn list_data(path: Seq<char>, recursive: bool, entries: Seq<JsonModel>) -> JsonModel {
    JsonModel::Object(
        Seq::empty().push(("entries"@, JsonModel::Array(entries))).push(
            ("entry_count"@, number_model(entries.len() as int)),
        ).push(("path"@, JsonModel::Text(path))).push(("recursive"@, JsonModel::Bool(recursive))),
    )
}

/// What `list_directory` says.
pub open spec fn list_message(path: Seq<char>, count: int) -> Seq<char> {
    "Listed "@ + spec_decimal(count as nat) + " entries in "@ + path
}

/// The result of `list_directory` once it is known what stands at the
/// path, where that settles it: only a directory is listed.
pub open spec fn list_probe_result(path: Seq<char>, kind: PathKind) -> Option<ToolResultModel> {
    match kind {
        PathKind::Directory => None,
        PathKind::Missing => Some(ToolResultModel::error("Path does not exist: "@ + path)),
        _ => Some(ToolResultModel::error("Path is not a directory: "@ + path)),
    }
}

/// The result of `list_directory`, from the entries that were found, or
/// the reason why the directory could not be read.
pub open spec fn list_result(plan: ListPlan, listed: Result<Vec<EntryFacts>, String>) -> ToolResultModel {
    match listed {
        Ok(entries) => ToolResultModel::success(
            list_data(
                plan.path@,
                plan.recursive,
                listed_entries(entries@, plan.recursive, plan.show_hidden),
            ),
            Some(
                list_message(
                    plan.path@,
                    listed_entries(entries@, plan.recursive, plan.show_hidden).len() as int,
                ),
            ),
        ),
        Err(reason) => ToolResultModel::error("Failed to read directory: "@ + reason@),
    }
}

impl ListDirectoryTool {
    /// What to list: the directory `.`, one level, without hidden entries,
    /// unless the parameters say otherwise.
    pub fn plan(&self, parameters: &Vec<(String, JsonValue)>) -> (plan: ListPlan)
        ensures
            plan.path@ == match spec_param_text(fields_view(parameters@), "path"@) {
                Some(p) => p,
                None => "."@,
            },
            plan.recursive == (spec_param_bool(fields_view(parameters@), "recursive"@) == Some(
                true,
            )),
            plan.show_hidden == (spec_param_bool(fields_view(parameters@), "show_hidden"@)
                == Some(true)),
    {
        let path = match param_text(parameters, "path") {
            Some(p) => p.clone(),
            None => ".".to_owned(),
        };
        let recursive = match param_bool(parameters, "recursive") {
            Some(b) => b,
            None => false,
        };
        let show_hidden = match param_bool(parameters, "show_hidden") {
            Some(b) => b,
            None => false,
        };
        ListPlan { path, recursive, show_hidden }
    }

    /// What to make of what stands at the path: only a directory is
    /// listed.
    pub fn on_probe(&self, path: &str, kind: PathKind) -> (r: Option<ToolResult>)
        ensures
            opt_result(r) == list_probe_result(path@, kind),
    {
        match kind {
            PathKind::Directory => None,
            PathKind::Missing => Some(ToolResult::error(concat2("Path does not exist: ", path))),
            _ => Some(ToolResult::error(concat2("Path is not a directory: ", path))),
        }
    }

    /// Whether the listing leaves an entry of that name out.
    pub fn is_skipped(&self, name: &str, recursive: bool, show_hidden: bool) -> (r: bool)
        ensures
            r == spec_is_skipped(name@, recursive, show_hidden),
    {
        if show_hidden {
            return false;
        }
        let n = chars_of(name);
        if n.len() == 0 || n[0] != '.' {
            return false;
        }
        if recursive && n.len() == 1 {
            assert(n@ =~= seq!['.']);
            return false;
        }
        true
    }

    /// The result, from the entries that were found, or the reason why the
    /// directory could not be read.
#[verifier::rlimit(40)]
    pub fn on_listed(&self, plan: &ListPlan, listed: Result<Vec<EntryFacts>, String>) -> (result:
        ToolResult)
        ensures
            result@ == list_result(*plan, listed),
    {
        let entries = match listed {
            Ok(entries) => entries,
            Err(reason) => {
                return ToolResult::error(concat2("Failed to read directory: ", reason.as_str()));
            },
        };
        let mut items = no_items();
        let mut i: usize = 0;
        assert(entries@.take(0) =~= Seq::empty());
        while i < entries.len()
            invariant
                i <= entries.len(),
                items_view(items@) == listed_entries(
                    entries@.take(i as int),
                    plan.recursive,
                    plan.show_hidden,
                ),
            decreases entries.len() - i,
        {
            let ghost next = entries@.take(i + 1);
            assert(next.drop_last() =~= entries@.take(i as int));
            assert(next.last() == entries@[i as int]);
            let entry = &entries[i];
            if !self.is_skipped(entry.name.as_str(), plan.recursive, plan.show_hidden) {
                let mut f = no_members();
                add_member(&mut f, "modified", JsonValue::optional_unsigned(entry.modified));
                add_member(&mut f, "name", JsonValue::text(entry.name.as_str()));
                add_member(&mut f, "path", JsonValue::text(entry.path.as_str()));
                add_member(&mut f, "size", JsonValue::unsigned(entry.size));
                add_member(
                    &mut f,
                    "type",
                    JsonValue::text(
                        if entry.is_directory {
                            "directory"
                        } else {
                            "file"
                        },
                    ),
                );
                add_item(&mut items, JsonValue::Object(f));
            }
            i += 1;
        }
        assert(entries@.take(entries@.len() as int) =~= entries@);
        proof {
            lemma_items_view(items@);
        }
        let count = items.len();
        let message = concat4(
            "Listed ",
            decimal_string(count as u128).as_str(),
            " entries in ",
            plan.path.as_str(),
        );
        let mut data = no_members();
        add_member(&mut data, "entries", JsonValue::Array(items));
        add_member(&mut data, "entry_count", JsonValue::unsigned(count as u64));
        add_member(&mut data, "path", JsonValue::text(plan.path.as_str()));
        add_member(&mut data, "recursive", JsonValue::Bool(plan.recursive));
        ToolResult::success(JsonValue::Object(data), Some(message))
    }
}

/// What was found of a file or directory.
#[derive(Clone, Copy, Debug, PartialEq, Eq)]
pub struct FileFacts {
    /// What it is: a file, a directory, or something else.
    pub kind: PathKind,
    /// Its size in bytes.
    pub size: u64,
    /// Whether it may not be written.
    pub readonly: bool,
    /// When it was created, in seconds since 1970, if known.
    pub created: Option<u64>,
    /// When it was last modified, if known.
    pub modified: Option<u64>,
    /// When it was last read, if known.
    pub accessed: Option<u64>,
}

/// How looking at a path went.
#[derive(Debug, PartialEq, Eq)]
pub enum InspectOutcome {
    /// Nothing is there.
    Missing,
    /// The facts could not be had; the reason.
    Failed(String),
    /// The facts.
    Facts(FileFacts),
}

/// The name of what is at a path.
pub open spec fn kind_text(kind: PathKind) -> Seq<char> {
    match kind {
        PathKind::Directory => "directory"@,
        PathKind::File => "file"@,
        _ => "other"@,
    }
}

/// The file name of a path, or nothing.
pub open spec fn name_or_empty(path: Seq<char>) -> Seq<char> {
    match spec_file_name(path) {
        Some(n) => n,
        None => Seq::empty(),
    }
}

/// What `file_info` reports first of all: the times.
pub open spec fn info_times(facts: FileFacts) -> Seq<(Seq<char>, JsonModel)> {
    Seq::empty().push(("accessed"@, optional_number(facts.accessed))).push(
        ("created"@, optional_number(facts.created)),
    )
}

/// What `file_info` reports of a file beyond what it reports of anything:
/// its extension if it has one, whether it is a text file, and the number
/// of its lines where that was counted.
pub open spec fn info_file_part(path: Seq<char>, facts: FileFacts, lines: Option<int>) -> Seq<
    (Seq<char>, JsonModel),
> {
    if facts.kind != PathKind::File {
        info_times(facts)
    } else {
        let with_extension = match spec_extension(path) {
            Some(ext) => info_times(facts).push(("extension"@, JsonModel::Text(ext))),
            None => info_times(facts),
        };
        let with_text = with_extension.push(("is_text"@, JsonModel::Bool(spec_is_text_file(path))));
        match lines {
            Some(n) => with_text.push(("line_count"@, number_model(n))),
            None => with_text,
        }
    }
}

/// What `file_info` reports.
pub open spec fn info_data(path: Seq<char>, facts: FileFacts, lines: Option<int>) -> JsonModel {
    JsonModel::Object(
        info_file_part(path, facts, lines).push(("modified"@, optional_number(facts.modified))).push(
            ("name"@, JsonModel::Text(name_or_empty(path))),
        ).push(("path"@, JsonModel::Text(path))).push(
            ("readonly"@, JsonModel::Bool(facts.readonly)),
        ).push(("size"@, JsonModel::Number(JsonNumber::Unsigned(facts.size)))).push(
            ("type"@, JsonModel::Text(kind_text(facts.kind))),
        ),
    )
}

/// The number of lines that `file_info` reports: those of the content
/// that was read, for a text file.
pub open spec fn info_lines(path: Seq<char>, facts: FileFacts, read: Option<Result<String, String>>) -> Option<
    int,
> {
    if facts.kind == PathKind::File && spec_is_text_file(path) {
        match read {
            Some(Ok(content)) => Some(spec_lines(content@).len() as int),
            _ => None,
        }
    } else {
        None
    }
}

/// The result of `file_info`, from what was found at the path and, for a
/// text file, from how reading it went.
pub open spec fn info_result(
    path: Seq<char>,
    outcome: InspectOutcome,
    read: Option<Result<String, String>>,
) -> ToolResultModel {
    match outcome {
        InspectOutcome::Missing => ToolResultModel::error("Path does not exist: "@ + path),
        InspectOutcome::Failed(reason) => ToolResultModel::error(
            "Failed to get metadata: "@ + reason@,
        ),
        InspectOutcome::Facts(facts) => ToolResultModel::success(
            info_data(path, facts, info_lines(path, facts, read)),
            Some("Retrieved information for "@ + path),
        ),
    }
}

/// Whether `file_info` counts the lines: only those of a text file.
pub open spec fn spec_wants_lines(path: Seq<char>, outcome: InspectOutcome) -> bool {
    outcome matches InspectOutcome::Facts(facts) && facts.kind == PathKind::File
        && spec_is_text_file(path)
}

impl FileInfoTool {
    /// The path to look at: the parameter `path`, which must be a string.
    pub fn target<'a>(&self, parameters: &'a Vec<(String, JsonValue)>) -> (r: Result<
        &'a String,
        ToolError,
    >)
        ensures
            match r {
                Ok(path) => spec_param_text(fields_view(parameters@), "path"@) == Some(path@),
                Err(e) => e == ToolError::MissingPath && spec_param_text(
                    fields_view(parameters@),
                    "path"@,
                ) is None,
            },
    {
        match param_text(parameters, "path") {
            Some(path) => Ok(path),
            None => Err(ToolError::MissingPath),
        }
    }

    /// Whether the lines are to be counted: only those of a text file.
    pub fn wants_lines(&self, path: &str, outcome: &InspectOutcome) -> (r: bool)
        ensures
            r == spec_wants_lines(path@, *outcome),
    {
        match outcome {
            InspectOutcome::Facts(facts) => facts.kind == PathKind::File && is_text_file(path),
            _ => false,
        }
    }

    /// The result, from what was found at the path and, for a text file,
    /// from how reading it went.
#[verifier::rlimit(40)]
    pub fn report(&self, path: &str, outcome: InspectOutcome, read: Option<Result<String, String>>) -> (result:
        ToolResult)
        ensures
            result@ == info_result(path@, outcome, read),
    {
        let facts = match outcome {
            InspectOutcome::Missing => {
                return ToolResult::error(concat2("Path does not exist: ", path));
            },
            InspectOutcome::Failed(reason) => {
                return ToolResult::error(concat2("Failed to get metadata: ", reason.as_str()));
            },
            InspectOutcome::Facts(facts) => facts,
        };
        let p = chars_of(path);
        let mut data = no_members();
        add_member(&mut data, "accessed", JsonValue::optional_unsigned(facts.accessed));
        add_member(&mut data, "created", JsonValue::optional_unsigned(facts.created));
        if facts.kind == PathKind::File {
            match extension(p.as_slice()) {
                Some(ext) => {
                    add_member(&mut data, "extension", JsonValue::text_of(ext.as_slice()));
                },
                None => {},
            }
            let is_text = is_text_file(path);
            add_member(&mut data, "is_text", JsonValue::Bool(is_text));
            if is_text {
                match read {
                    Some(Ok(content)) => {
                        let text = chars_of(content.as_str());
                        let lines = split_lines(text.as_slice());
                        assert(nested(lines@).len() == lines@.len());
                        add_member(
                            &mut data,
                            "line_count",
                            JsonValue::unsigned(lines.len() as u64),
                        );
                    },
                    _ => {},
                }
            }
        }
        let name = match file_name(p.as_slice()) {
            Some(n) => string_of(n.as_slice()),
            None => String::new(),
        };
        add_member(&mut data, "modified", JsonValue::optional_unsigned(facts.modified));
        add_member(&mut data, "name", JsonValue::Text(name));
        add_member(&mut data, "path", JsonValue::text(path));
        add_member(&mut data, "readonly", JsonValue::Bool(facts.readonly));
        add_member(&mut data, "size", JsonValue::unsigned(facts.size));
        add_member(
            &mut data,
            "type",
            JsonValue::text(
                match facts.kind {
                    PathKind::Directory => "directory",
                    PathKind::File => "file",
                    _ => "other",
                },
            ),
        );
        ToolResult::success(JsonValue::Object(data), Some(concat2("Retrieved information for ", path)))
    }
}

/// What a walk found at one place.
#[derive(Debug, PartialEq, Eq)]
pub struct WalkedEntry {
    /// The path of what was found.
    pub path: String,
    /// Whether it is a regular file.
    pub is_file: bool,
}

/// A search under way: what a walk found, how far the search has come
/// through it, and what it has found.
#[derive(Debug, PartialEq, Eq)]
pub struct SearchRun {
    /// What the search is to do.
    pub plan: SearchPlan,
    /// What the walk found, in its order.
    pub entries: Vec<WalkedEntry>,
    /// The index of the entry to look at next.
    pub cursor: usize,
    /// How many files were opened for the search.
    pub files_searched: usize,
    /// The results so far.
    pub results: Vec<JsonValue>,
}

/// The index of the first entry, at or after `from`, that the search
/// looks into; or the number of entries.
pub open spec fn next_accepted(plan: SearchPlan, entries: Seq<WalkedEntry>, from: int) -> int
    decreases entries.len() - from,
{
    if from < 0 || from >= entries.len() {
        entries.len() as int
    } else if plan.spec_accepts(entries[from].path@, entries[from].is_file) {
        from
    } else {
        next_accepted(plan, entries, from + 1)
    }
}

impl SearchRun {
    /// No more files were searched than entries were passed.
    pub open spec fn wf(&self) -> bool {
        self.files_searched <= self.cursor <= self.entries@.len()
    }

    /// A search at its beginning.
    pub fn new(plan: SearchPlan, entries: Vec<WalkedEntry>) -> (run: SearchRun)
        ensures
            run.wf(),
            run.plan == plan,
            run.entries == entries,
            run.cursor == 0,
            run.files_searched == 0,
            run.results@.len() == 0,
    {
        SearchRun { plan, entries, cursor: 0, files_searched: 0, results: Vec::new() }
    }

    /// Moves on to the next file that is searched, and counts it. `None`
    /// when there is none left.
    pub fn next_file(&mut self) -> (path: Option<String>)
        requires
            old(self).wf(),
        ensures
            final(self).wf(),
            final(self).plan == old(self).plan,
            final(self).entries == old(self).entries,
            final(self).results == old(self).results,
            ({
                let at = next_accepted(old(self).plan, old(self).entries@, old(self).cursor as int);
                if at < old(self).entries@.len() {
                    &&& path is Some
                    &&& path->0@ == old(self).entries@[at].path@
                    &&& final(self).cursor == at + 1
                    &&& final(self).files_searched == old(self).files_searched + 1
                } else {
                    &&& path is None
                    &&& final(self).cursor == old(self).entries@.len()
                    &&& final(self).files_searched == old(self).files_searched
                }
            }),
    {
        let ghost start = self.cursor;
        while self.cursor < self.entries.len()
            invariant
                self.files_searched <= start <= self.cursor <= self.entries@.len(),
                self.plan == old(self).plan,
                self.entries == old(self).entries,
                self.results == old(self).results,
                self.files_searched == old(self).files_searched,
                start == old(self).cursor,
                next_accepted(self.plan, self.entries@, self.cursor as int) == next_accepted(
                    self.plan,
                    self.entries@,
                    start as int,
                ),
            decreases self.entries.len() - self.cursor,
        {
            let at = self.cursor;
            self.cursor = at + 1;
            if self.plan.accepts(self.entries[at].path.as_str(), self.entries[at].is_file) {
                self.files_searched = self.files_searched + 1;
                return Some(self.entries[at].path.clone());
            }
        }
        None
    }

    /// Whether the search has as many results as it was to find.
    pub fn is_full(&self) -> (r: bool)
        ensures
            r == (self.results@.len() >= self.plan.max_results),
    {
        self.results.len() as u64 >= self.plan.max_results
    }

    /// Takes in what reading the file at `path` gave: its lines are
    /// searched; a file that could not be read adds nothing.
    pub fn take(&mut self, path: &str, read: Result<String, String>)
        ensures
            final(self).plan == old(self).plan,
            final(self).entries == old(self).entries,
            final(self).cursor == old(self).cursor,
            final(self).files_searched == old(self).files_searched,
            items_view(final(self).results@) == match read {
                Ok(content) => scan_lines(
                    old(self).plan.regex@,
                    path@,
                    spec_lines(content@),
                    0,
                    items_view(old(self).results@),
                    old(self).plan.max_results,
                ),
                Err(_) => items_view(old(self).results@),
            },
    {
        match read {
            Ok(content) => {
                scan_file(
                    self.plan.regex.as_str(),
                    path,
                    content.as_str(),
                    &mut self.results,
                    self.plan.max_results,
                );
            },
            Err(_) => {},
        }
    }

    /// The result of the search.
    pub fn finish(self) -> (result: ToolResult)
        ensures
            result@ == ToolResultModel::success(
                search_data(
                    self.plan.pattern@,
                    self.plan.directory@,
                    self.files_searched as int,
                    items_view(self.results@),
                ),
                Some(search_message(self.files_searched as int, self.results@.len() as int)),
            ),
    {
        let SearchRun { plan, entries, cursor, files_searched, results } = self;
        SearchFilesTool.finish(&plan, files_searched, results)
    }
}

} // verus!
