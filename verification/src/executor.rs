//! The tool registry and dispatcher.
//!
//! The executor knows the tools by name, checks calls against their
//! schemas, and runs a call step by step: it says what is to be read,
//! copied or written, is told how that went, and says what comes next,
//! until the result stands.

use crate::agent::AgentConfig;
use crate::json::{
    fields_view, items_view, lemma_fields_view, lemma_items_view, lookup, spec_lookup, JsonModel,
    JsonValue,
};
use crate::paths::{file_name, join_path, parent, spec_file_name, spec_join_path, spec_parent};
use crate::safety::{spec_modifies_files, spec_verdict, ManagerModel, SafetyManager};
use crate::text::{
    append_str, chars_of, concat2, concat3, concat7, digit_char, spec_decimal, str_eq, string_of,
};
use crate::tools::{
    add_member, no_members, param_text, spec_param_text, strings_view, FileInfoTool,
    ListDirectoryTool, ReadFileTool, SearchFilesTool, Tool, ToolCall, ToolCallModel, ToolResult,
    ToolResultModel, UpdateFileTool, WriteFileTool,
};
use vstd::prelude::*;

verus! {

/// Why the executor gave up on a call, or on a request about its tools.
#[derive(Clone, Copy, Debug, PartialEq, Eq, Structural)]
pub enum ExecErrorKind {
    /// No tool of that name is registered.
    UnknownTool,
    /// A tool of that name is registered already.
    DuplicateTool,
    /// The file could not be copied before it is overwritten.
    BackupFailed,
    /// The path of the file to back up ends in no file name.
    InvalidFileName,
    /// A parameter that the schema requires is missing.
    MissingParameter,
    /// A parameter is not of the type that the schema names.
    WrongParameterType,
    /// The shell reported something that it was not asked for.
    UnexpectedEvent,
    /// Agent mode is off.
    AgentDisabled,
}

/// An error of the executor: its kind, and in words.
#[derive(Debug, PartialEq, Eq)]
pub struct ExecError {
    pub kind: ExecErrorKind,
    pub message: String,
}

/// What is known of a tool: its name, what it does, and the schema of its
/// parameters.
#[derive(Debug, PartialEq, Eq)]
pub struct ToolInfo {
    pub name: String,
    pub description: String,
    pub parameters: JsonValue,
}

/// What is known of the tool, in mathematical form.
pub open spec fn info_model(tool: Tool) -> (Seq<char>, Seq<char>, JsonModel) {
    (tool.spec_name(), tool.spec_description(), tool.spec_parameters())
}

impl View for ToolInfo {
    type V = (Seq<char>, Seq<char>, JsonModel);

    open spec fn view(&self) -> (Seq<char>, Seq<char>, JsonModel) {
        (self.name@, self.description@, self.parameters@)
    }
}

/// The names of the tools.
pub open spec fn names_of(tools: Seq<Tool>) -> Seq<Seq<char>> {
    Seq::new(tools.len(), |i: int| tools[i].spec_name())
}

/// The index of the first tool of that name, or the number of tools.
pub open spec fn index_of_tool(tools: Seq<Tool>, name: Seq<char>) -> int
    decreases tools.len(),
{
    if tools.len() == 0 {
        0
    } else if tools[0].spec_name() == name {
        0
    } else {
        1 + index_of_tool(tools.drop_first(), name)
    }
}

/// `index_of_tool` is the first index that bears the name.
pub proof fn lemma_index_of_tool(tools: Seq<Tool>, name: Seq<char>)
    ensures
        0 <= index_of_tool(tools, name) <= tools.len(),
        forall|k: int| 0 <= k < index_of_tool(tools, name) ==> tools[k].spec_name() != name,
        index_of_tool(tools, name) < tools.len() ==> tools[index_of_tool(
            tools,
            name,
        )].spec_name() == name,
    decreases tools.len(),
{
    if tools.len() > 0 && tools[0].spec_name() != name {
        let rest = tools.drop_first();
        lemma_index_of_tool(rest, name);
        assert forall|k: int| 0 <= k < index_of_tool(tools, name) implies tools[k].spec_name()
            != name by {
            if k > 0 {
                assert(rest[k - 1] == tools[k]);
            }
        }
        let p = index_of_tool(rest, name);
        if p < rest.len() {
            assert(rest[p] == tools[p + 1]);
        }
    }
}

/// The tool of that name, if one is registered.
pub open spec fn find_tool(tools: Seq<Tool>, name: Seq<char>) -> Option<Tool> {
    if index_of_tool(tools, name) < tools.len() {
        Some(tools[index_of_tool(tools, name)])
    } else {
        None
    }
}

/// The six built-in tools, in the order in which they are registered.
pub open spec fn builtin_tools() -> Seq<Tool> {
    Seq::empty().push(Tool::ReadFile(crate::tools::ReadFileTool)).push(
        Tool::WriteFile(crate::tools::WriteFileTool),
    ).push(Tool::UpdateFile(crate::tools::UpdateFileTool)).push(
        Tool::SearchFiles(crate::tools::SearchFilesTool),
    ).push(Tool::ListDirectory(crate::tools::ListDirectoryTool)).push(
        Tool::FileInfo(crate::tools::FileInfoTool),
    )
}

/// The JSON type that a schema entry asks for, if it names one.
pub open spec fn expected_type(entry: JsonModel) -> Option<Seq<char>> {
    match entry.get("type"@) {
        Some(t) => t.as_text(),
        None => None,
    }
}

/// Whether a value is of the type that a schema entry asks for. An entry
/// that names no type asks for nothing, and `integer` asks for a number.
pub open spec fn type_fits(value: JsonModel, entry: JsonModel) -> bool {
    match expected_type(entry) {
        None => true,
        Some(expected) => expected == value.kind_name() || (expected == "integer"@
            && value.kind_name() == "number"@),
    }
}

/// The first required parameter, from index `i` of the list on, that the
/// call does not give. Items of the list that are no strings are passed
/// over.
pub open spec fn first_missing(
    required: Seq<JsonModel>,
    parameters: Seq<(Seq<char>, JsonModel)>,
    i: int,
) -> Option<Seq<char>>
    decreases required.len() - i,
{
    if i < 0 || i >= required.len() {
        None
    } else {
        match required[i].as_text() {
            Some(name) => if spec_lookup(parameters, name) is None {
                Some(name)
            } else {
                first_missing(required, parameters, i + 1)
            },
            None => first_missing(required, parameters, i + 1),
        }
    }
}

/// The index of the first parameter of the call, from index `i` on, that
/// the schema knows and whose value is not of the type asked for; or the
/// number of parameters.
pub open spec fn first_misfit(
    properties: Seq<(Seq<char>, JsonModel)>,
    parameters: Seq<(Seq<char>, JsonModel)>,
    i: int,
) -> int
    decreases parameters.len() - i,
{
    if i < 0 || i >= parameters.len() {
        parameters.len() as int
    } else {
        match spec_lookup(properties, parameters[i].0) {
            Some(entry) => if type_fits(parameters[i].1, entry) {
                first_misfit(properties, parameters, i + 1)
            } else {
                i
            },
            None => first_misfit(properties, parameters, i + 1),
        }
    }
}

/// What a check of parameters against a schema finds.
pub enum Validation {
    /// Nothing.
    Fine,
    /// A required parameter is missing; its name.
    Missing(Seq<char>),
    /// A parameter is of the wrong type; its name, its type, and the type
    /// asked for.
    Misfit(Seq<char>, Seq<char>, Seq<char>),
}

/// Checks parameters against a schema. A schema without an object named
/// `properties` asks for nothing. Else the first required parameter that is
/// missing is reported, and failing that the first parameter of the wrong
/// type.
pub open spec fn spec_validate(schema: JsonModel, parameters: Seq<(Seq<char>, JsonModel)>) -> Validation {
    match schema.get("properties"@) {
        Some(JsonModel::Object(properties)) => {
            let missing = match schema.get("required"@) {
                Some(JsonModel::Array(required)) => first_missing(required, parameters, 0),
                _ => None,
            };
            match missing {
                Some(name) => Validation::Missing(name),
                None => {
                    let at = first_misfit(properties, parameters, 0);
                    if at < parameters.len() {
                        Validation::Misfit(
                            parameters[at].0,
                            parameters[at].1.kind_name(),
                            expected_type(spec_lookup(properties, parameters[at].0)->0)->0,
                        )
                    } else {
                        Validation::Fine
                    }
                },
            }
        },
        _ => Validation::Fine,
    }
}

/// The outcome of a check says what was found.
pub open spec fn reports(outcome: Result<(), ExecError>, found: Validation) -> bool {
    match found {
        Validation::Fine => outcome is Ok,
        Validation::Missing(name) => outcome is Err && outcome->Err_0.kind
            == ExecErrorKind::MissingParameter && outcome->Err_0.message@
            == "Missing required parameter: "@ + name,
        Validation::Misfit(name, actual, expected) => outcome is Err && outcome->Err_0.kind
            == ExecErrorKind::WrongParameterType && outcome->Err_0.message@ == "Parameter '"@
            + name + "' has type '"@ + actual + "' but expected '"@ + expected + "'"@,
    }
}

/// Checks a value against the type that a schema entry asks for.
pub fn validate_parameter_type(param_name: &str, value: &JsonValue, schema: &JsonValue) -> (r: Result<
    (),
    ExecError,
>)
    ensures
        type_fits(value@, schema@) ==> r is Ok,
        !type_fits(value@, schema@) ==> r is Err && r->Err_0.kind
            == ExecErrorKind::WrongParameterType && r->Err_0.message@ == "Parameter '"@
            + param_name@ + "' has type '"@ + value@.kind_name() + "' but expected '"@
            + expected_type(schema@)->0 + "'"@,
{
    let expected = match schema.get("type") {
        Some(t) => match t.as_text() {
            Some(expected) => expected,
            None => { return Ok(()); },
        },
        None => { return Ok(()); },
    };
    let actual = value.kind_name();
    if !str_eq(expected.as_str(), actual) && !(str_eq(expected.as_str(), "integer") && str_eq(
        actual,
        "number",
    )) {
        Err(
            ExecError {
                kind: ExecErrorKind::WrongParameterType,
                message: concat7(
                    "Parameter '",
                    param_name,
                    "' has type '",
                    actual,
                    "' but expected '",
                    expected.as_str(),
                    "'",
                ),
            },
        )
    } else {
        Ok(())
    }
}

/// Checks parameters against a schema.
#[verifier::loop_isolation(false)]
#[verifier::rlimit(40)]
pub fn validate_parameters(schema: &JsonValue, parameters: &Vec<(String, JsonValue)>) -> (r: Result<
    (),
    ExecError,
>)
    ensures
        reports(r, spec_validate(schema@, fields_view(parameters@))),
{
    let properties = match schema.get("properties") {
        Some(JsonValue::Object(properties)) => properties,
        _ => { return Ok(()); },
    };
    match schema.get("required") {
        Some(JsonValue::Array(required)) => {
            proof {
                lemma_items_view(required@);
            }
            let mut i: usize = 0;
            while i < required.len()
                invariant
                    i <= required.len(),
                    items_view(required@).len() == required@.len(),
                    forall|k: int|
                        0 <= k < required@.len() ==> #[trigger] items_view(required@)[k]
                            == required@[k]@,
                    first_missing(items_view(required@), fields_view(parameters@), i as int)
                        == first_missing(items_view(required@), fields_view(parameters@), 0),
                decreases required.len() - i,
            {
                assert(items_view(required@)[i as int] == required@[i as int]@);
                match required[i].as_text() {
                    Some(name) => {
                        if lookup(parameters, name.as_str()).is_none() {
                            return Err(
                                ExecError {
                                    kind: ExecErrorKind::MissingParameter,
                                    message: concat2(
                                        "Missing required parameter: ",
                                        name.as_str(),
                                    ),
                                },
                            );
                        }
                    },
                    None => {},
                }
                i += 1;
            }
        },
        _ => {},
    }
    proof {
        lemma_fields_view(parameters@);
    }
    let mut i: usize = 0;
    while i < parameters.len()
        invariant
            i <= parameters.len(),
            fields_view(parameters@).len() == parameters@.len(),
            forall|k: int|
                0 <= k < parameters@.len() ==> #[trigger] fields_view(parameters@)[k] == (
                    parameters@[k].0@,
                    parameters@[k].1@,
                ),
            first_misfit(fields_view(properties@), fields_view(parameters@), i as int)
                == first_misfit(fields_view(properties@), fields_view(parameters@), 0),
        decreases parameters.len() - i,
    {
        assert(fields_view(parameters@)[i as int] == (
            parameters@[i as int].0@,
            parameters@[i as int].1@,
        ));
        match lookup(properties, parameters[i].0.as_str()) {
            Some(entry) => {
                match validate_parameter_type(parameters[i].0.as_str(), &parameters[i].1, entry) {
                    Err(e) => { return Err(e); },
                    Ok(_) => {},
                }
            },
            None => {},
        }
        i += 1;
    }
    Ok(())
}

/// Whether the list of required parameters of a schema names `name`.
pub open spec fn spec_is_required(schema: JsonModel, name: Seq<char>) -> bool {
    match schema.get("required"@) {
        Some(JsonModel::Array(required)) => required.contains(JsonModel::Text(name)),
        _ => false,
    }
}

/// What a schema entry says of a parameter, or `fallback` where it says
/// nothing.
pub open spec fn entry_text(entry: JsonModel, key: Seq<char>, fallback: Seq<char>) -> Seq<char> {
    match entry.get(key) {
        Some(JsonModel::Text(t)) => t,
        _ => fallback,
    }
}

/// The line that describes one parameter.
pub open spec fn parameter_line(name: Seq<char>, entry: JsonModel, required: bool) -> Seq<char> {
    "\n  - "@ + name + " ("@ + entry_text(entry, "type"@, "unknown"@) + ")"@ + (if required {
        " *required*"@
    } else {
        Seq::empty()
    }) + ": "@ + entry_text(entry, "description"@, "No description"@)
}

/// The lines that describe the parameters, in the order of the schema.
pub open spec fn parameter_lines(properties: Seq<(Seq<char>, JsonModel)>, schema: JsonModel) -> Seq<
    char,
>
    decreases properties.len(),
{
    if properties.len() == 0 {
        Seq::empty()
    } else {
        parameter_lines(properties.drop_last(), schema) + parameter_line(
            properties.last().0,
            properties.last().1,
            spec_is_required(schema, properties.last().0),
        )
    }
}

/// A tool described for a reader: its name and what it does, and, where
/// the schema has properties, a line for each parameter.
pub open spec fn spec_format_description(
    name: Seq<char>,
    description: Seq<char>,
    schema: JsonModel,
) -> Seq<char> {
    let head = "**"@ + name + "**: "@ + description;
    match schema.get("properties"@) {
        Some(JsonModel::Object(properties)) => head + "\n\nParameters:"@ + parameter_lines(
            properties,
            schema,
        ),
        _ => head,
    }
}

/// Whether an array holds the string `name`.
pub fn array_has_text(items: &Vec<JsonValue>, name: &str) -> (r: bool)
    ensures
        r == items_view(items@).contains(JsonModel::Text(name@)),
{
    proof {
        lemma_items_view(items@);
    }
    let mut i: usize = 0;
    while i < items.len()
        invariant
            i <= items.len(),
            items_view(items@).len() == items@.len(),
            forall|k: int| 0 <= k < items@.len() ==> #[trigger] items_view(items@)[k] == items@[k]@,
            forall|k: int| 0 <= k < i ==> items_view(items@)[k] != JsonModel::Text(name@),
        decreases items.len() - i,
    {
        assert(items_view(items@)[i as int] == items@[i as int]@);
        match items[i].as_text() {
            Some(t) => {
                if str_eq(t.as_str(), name) {
                    assert(items_view(items@)[i as int] == JsonModel::Text(name@));
                    return true;
                }
            },
            None => {},
        }
        i += 1;
    }
    false
}

fn text_or<'a>(entry: &'a JsonValue, key: &str, fallback: &'a str) -> (t: &'a str)
    ensures
        t@ == entry_text(entry@, key@, fallback@),
{
    match entry.get(key) {
        Some(v) => match v.as_text() {
            Some(t) => t.as_str(),
            None => fallback,
        },
        None => fallback,
    }
}

impl ToolInfo {
    /// What is known of a tool.
    pub fn of(tool: &Tool) -> (info: ToolInfo)
        ensures
            info@ == info_model(*tool),
    {
        ToolInfo {
            name: tool.name().to_owned(),
            description: tool.description().to_owned(),
            parameters: tool.parameters(),
        }
    }

    /// The tool described for a reader.
    pub fn format_description(&self) -> (text: String)
        ensures
            text@ == spec_format_description(self.name@, self.description@, self.parameters@),
    {
        let mut out = chars_of("**");
        append_str(&mut out, self.name.as_str());
        append_str(&mut out, "**: ");
        append_str(&mut out, self.description.as_str());
        match self.parameters.get("properties") {
            Some(JsonValue::Object(properties)) => {
                append_str(&mut out, "\n\nParameters:");
                append_parameter_lines(&mut out, properties, &self.parameters);
            },
            _ => {},
        }
        string_of(out.as_slice())
    }
}

/// Appends the line that describes one parameter.
fn append_parameter_line(out: &mut Vec<char>, name: &str, entry: &JsonValue, required: bool)
    ensures
        final(out)@ == old(out)@ + parameter_line(name@, entry@, required),
{
    let ghost before = out@;
    append_str(out, "\n  - ");
    append_str(out, name);
    append_str(out, " (");
    append_str(out, text_or(entry, "type", "unknown"));
    append_str(out, ")");
    if required {
        append_str(out, " *required*");
    }
    append_str(out, ": ");
    append_str(out, text_or(entry, "description", "No description"));
    assert(out@ =~= before + parameter_line(name@, entry@, required));
}

/// Whether the list of required parameters of a schema names `name`.
fn is_required(schema: &JsonValue, name: &str) -> (r: bool)
    ensures
        r == spec_is_required(schema@, name@),
{
    match schema.get("required") {
        Some(JsonValue::Array(list)) => array_has_text(list, name),
        _ => false,
    }
}

/// Appends the lines that describe the parameters.
#[verifier::rlimit(40)]
fn append_parameter_lines(
    out: &mut Vec<char>,
    properties: &Vec<(String, JsonValue)>,
    schema: &JsonValue,
)
    ensures
        final(out)@ == old(out)@ + parameter_lines(fields_view(properties@), schema@),
{
    let ghost head = out@;
    let ghost model = fields_view(properties@);
    proof {
        lemma_fields_view(properties@);
    }
    assert(model.take(0) =~= Seq::empty());
    assert(head + Seq::<char>::empty() =~= head);
    let mut i: usize = 0;
    while i < properties.len()
        invariant
            i <= properties.len(),
            model == fields_view(properties@),
            model.len() == properties@.len(),
            forall|k: int|
                0 <= k < properties@.len() ==> #[trigger] model[k] == (
                    properties@[k].0@,
                    properties@[k].1@,
                ),
            out@ == head + parameter_lines(model.take(i as int), schema@),
        decreases properties.len() - i,
    {
        let ghost done = model.take(i as int);
        let ghost next = model.take(i + 1);
        assert(next.drop_last() =~= done);
        assert(next.last() == model[i as int]);
        let name = properties[i].0.as_str();
        let required = is_required(schema, name);
        let ghost before = out@;
        append_parameter_line(out, name, &properties[i].1, required);
        assert(parameter_lines(next, schema@) == parameter_lines(done, schema@) + parameter_line(
            name@,
            properties@[i as int].1@,
            required,
        ));
        assert(out@ =~= head + parameter_lines(next, schema@));
        i += 1;
    }
    assert(model.take(model.len() as int) =~= model);
}

/// Where a copy of a file is kept before the file is overwritten: beside
/// it, under its name with `.backup_` and the time stamp added. `None`
/// where the path ends in no file name.
pub open spec fn spec_backup_path(original: Seq<char>, stamp: Seq<char>) -> Option<Seq<char>> {
    match spec_file_name(original) {
        None => None,
        Some(name) => match spec_parent(original) {
            Some(dir) => Some(spec_join_path(dir, name + ".backup_"@ + stamp)),
            None => Some(name + ".backup_"@ + stamp),
        },
    }
}

/// A moment in UTC, by the calendar and the clock.
#[derive(Clone, Copy, Debug, PartialEq, Eq)]
pub struct UtcTime {
    pub year: i32,
    pub month: u32,
    pub day: u32,
    pub hour: u32,
    pub minute: u32,
    pub second: u32,
}

impl UtcTime {
    /// The moment is one that the clock can show: not before 1970, with
    /// month, day, hour, minute and second in their ranges.
    pub open spec fn wf(self) -> bool {
        &&& self.year >= 1970
        &&& 1 <= self.month <= 12
        &&& 1 <= self.day <= 31
        &&& self.hour <= 23
        &&& self.minute <= 59
        &&& self.second <= 59
    }
}

/// A number below a hundred in two digits.
pub open spec fn two_digits(n: int) -> Seq<char> {
    seq![digit_char(n / 10), digit_char(n % 10)]
}

/// A year in four digits; beyond 9999, a plus sign and all its digits.
pub open spec fn year_digits(year: int) -> Seq<char> {
    if year <= 9999 {
        two_digits(year / 100) + two_digits(year % 100)
    } else {
        seq!['+'] + spec_decimal(year as nat)
    }
}

/// The pattern of the time stamp in the name of a backup: year, month and
/// day, an underscore, hour, minute and second.
pub open spec fn stamp_pattern() -> Seq<char> {
    "%Y%m%d_%H%M%S"@
}

/// The time stamp of a moment: year, month and day, an underscore, hour,
/// minute and second, each but the year in two digits.
pub open spec fn spec_stamp(time: UtcTime) -> Seq<char> {
    year_digits(time.year as int) + two_digits(time.month as int) + two_digits(time.day as int)
        + seq!['_'] + two_digits(time.hour as int) + two_digits(time.minute as int) + two_digits(
        time.second as int,
    )
}

/// The present time in UTC from `chrono::Utc::now`, by the calendar and
/// the clock, and as `DateTime::format` writes it for the pattern of the
/// time stamp. The time is not before 1970, since `now` counts from there;
/// `format` writes a year from 1000 to 9999 in four digits and a later one
/// with a plus sign, and month, day, hour, minute and second in two digits
/// each. The moment differs from one call to the next.
#[verifier::external_body]
pub(crate) fn utc_stamp(pattern: &str) -> (now: (UtcTime, String))
    requires
        pattern@ == stamp_pattern(),
    ensures
        now.0.wf(),
        now.1@ == spec_stamp(now.0),
{
    let now = chrono::Utc::now();
    let text = now.format(pattern).to_string();
    let time = UtcTime {
        year: chrono::Datelike::year(&now),
        month: chrono::Datelike::month(&now),
        day: chrono::Datelike::day(&now),
        hour: chrono::Timelike::hour(&now),
        minute: chrono::Timelike::minute(&now),
        second: chrono::Timelike::second(&now),
    };
    (time, text)
}

/// A decimal digit.
pub open spec fn is_digit(c: char) -> bool {
    '0' <= c && c <= '9'
}

/// The time stamp of a moment up to the year 9999 has fifteen characters:
/// eight digits, an underscore, and six digits.
pub proof fn lemma_stamp_shape(time: UtcTime)
    requires
        time.wf(),
        time.year <= 9999,
    ensures
        spec_stamp(time).len() == 15,
        spec_stamp(time)[8] == '_',
        forall|i: int| 0 <= i < 15 && i != 8 ==> is_digit(#[trigger] spec_stamp(time)[i]),
{
    let year = year_digits(time.year as int);
    assert(year.len() == 4);
    let date = year + two_digits(time.month as int) + two_digits(time.day as int);
    assert(date.len() == 8);
    let stamp = spec_stamp(time);
    assert(stamp =~= date + seq!['_'] + two_digits(time.hour as int) + two_digits(
        time.minute as int,
    ) + two_digits(time.second as int));
    assert forall|n: int| 0 <= n <= 99 implies is_digit(#[trigger] two_digits(n)[0]) && is_digit(
        two_digits(n)[1],
    ) by {}
    assert forall|i: int| 0 <= i < 15 && i != 8 implies is_digit(#[trigger] stamp[i]) by {
        let y = time.year as int;
        assert(0 <= y / 100 <= 99 && 0 <= y % 100 <= 99);
        assert(is_digit(two_digits(y / 100)[0]) && is_digit(two_digits(y / 100)[1]));
        assert(is_digit(two_digits(y % 100)[0]) && is_digit(two_digits(y % 100)[1]));
        assert(is_digit(two_digits(time.month as int)[0]) && is_digit(
            two_digits(time.month as int)[1],
        ));
        assert(is_digit(two_digits(time.day as int)[0]) && is_digit(
            two_digits(time.day as int)[1],
        ));
        assert(is_digit(two_digits(time.hour as int)[0]) && is_digit(
            two_digits(time.hour as int)[1],
        ));
        assert(is_digit(two_digits(time.minute as int)[0]) && is_digit(
            two_digits(time.minute as int)[1],
        ));
        assert(is_digit(two_digits(time.second as int)[0]) && is_digit(
            two_digits(time.second as int)[1],
        ));
    }
}

/// The path of the file to copy before a call changes it: that of a call
/// of a tool that changes files, where backups are on.
pub open spec fn wants_backup(config: crate::agent::ConfigModel, call: ToolCallModel) -> Option<
    Seq<char>,
> {
    if spec_modifies_files(call.tool) && config.auto_backup {
        spec_param_text(call.parameters, "path"@)
    } else {
        None
    }
}

/// What a dry run shows of a call in place of running it.
pub open spec fn preview_data(call: ToolCallModel, description: Seq<char>) -> JsonModel {
    JsonModel::Object(
        Seq::empty().push(("description"@, JsonModel::Text(description))).push(
            ("dry_run"@, JsonModel::Bool(true)),
        ).push(
            ("note"@, JsonModel::Text("This is a preview - no actual changes were made"@)),
        ).push(("parameters"@, JsonModel::Object(call.parameters))).push(
            ("tool"@, JsonModel::Text(call.tool)),
        ),
    )
}

/// What a dry run says of a call.
pub open spec fn preview_message(call: ToolCallModel) -> Seq<char> {
    "DRY RUN: Would execute "@ + call.tool + " with given parameters"@
}

/// How the run of a call begins.
///
/// A call of an unknown tool is an error. A call that the safety manager
/// turns down ends at once, with the refusal for a result. In a dry run a
/// call ends at once with a preview. Else, where a file is to be changed
/// and backups are on, the run first asks what stands at the path; and in
/// every other case the tool begins.
pub open spec fn begins(
    tools: Seq<Tool>,
    config: crate::agent::ConfigModel,
    safety: ManagerModel,
    call: ToolCallModel,
    step: crate::run::Step,
) -> bool {
    match find_tool(tools, call.tool) {
        None => crate::run::fails_with(
            step,
            ExecErrorKind::UnknownTool,
            "Unknown tool: "@ + call.tool,
        ),
        Some(tool) => match spec_verdict(safety, call) {
            Some((_, message)) => crate::run::ends_with(
                step,
                ToolResultModel::error("Safety check failed: "@ + message),
            ),
            None => if config.dry_run_mode {
                crate::run::ends_with(
                    step,
                    ToolResultModel::success(
                        preview_data(call, tool.spec_description()),
                        Some(preview_message(call)),
                    ),
                )
            } else {
                match wants_backup(config, call) {
                    Some(path) => {
                        &&& step.run.backup is None
                        &&& step.action matches crate::run::Action::Probe { path: asked } && asked@
                            == path
                        &&& step.run.stage matches crate::run::Stage::BackupProbe {
                            tool: t,
                            call: c,
                            path: kept,
                        } && t == tool && c@ == call && kept@ == path
                    },
                    None => crate::run::tool_begins(tool, call.parameters, None, step),
                }
            },
        },
    }
}

/// The tool registry and dispatcher.
#[derive(Debug)]
pub struct AgentExecutor {
    config: AgentConfig,
    safety_manager: SafetyManager,
    tools: Vec<Tool>,
}

impl AgentExecutor {
    /// The tools that are registered, in the order of their registration.
    pub closed spec fn tools(&self) -> Seq<Tool> {
        self.tools@
    }

    /// The configuration.
    pub closed spec fn config(&self) -> crate::agent::ConfigModel {
        self.config@
    }

    /// The state of the safety manager.
    pub closed spec fn safety(&self) -> ManagerModel {
        self.safety_manager@
    }

    /// No two registered tools bear the same name.
    pub open spec fn wf(&self) -> bool {
        forall|i: int, j: int|
            0 <= i < j < self.tools().len() ==> (#[trigger] self.tools()[i]).spec_name() != (
            #[trigger] self.tools()[j]).spec_name()
    }

    /// An executor with the six built-in tools.
    pub fn new(config: AgentConfig, safety_manager: SafetyManager) -> (r: Result<Self, ExecError>)
        ensures
            r is Ok,
            r->Ok_0.wf(),
            r->Ok_0.tools() == builtin_tools(),
            r->Ok_0.config() == config@,
            r->Ok_0.safety() == safety_manager@,
    {
        Ok(Self::with_builtin_tools(config, safety_manager))
    }

    /// An executor with the six built-in tools.
    pub fn with_builtin_tools(config: AgentConfig, safety_manager: SafetyManager) -> (executor:
        Self)
        ensures
            executor.wf(),
            executor.tools() == builtin_tools(),
            executor.config() == config@,
            executor.safety() == safety_manager@,
    {
        let mut executor = AgentExecutor { config, safety_manager, tools: Vec::new() };
        executor.register_builtin_tools();
        executor
    }

    /// Registers the six built-in tools.
    fn register_builtin_tools(&mut self)
        requires
            old(self).tools().len() == 0,
        ensures
            final(self).wf(),
            final(self).tools() == builtin_tools(),
            final(self).config() == old(self).config(),
            final(self).safety() == old(self).safety(),
    {
        proof {
            reveal_strlit("read_file");
            reveal_strlit("write_file");
            reveal_strlit("update_file");
            reveal_strlit("search_files");
            reveal_strlit("list_directory");
            reveal_strlit("file_info");
            assert("read_file"@.len() == 9 && "write_file"@.len() == 10);
            assert("update_file"@.len() == 11 && "search_files"@.len() == 12);
            assert("list_directory"@.len() == 14 && "file_info"@.len() == 9);
            assert("read_file"@[0] == 'r' && "file_info"@[0] == 'f');
        }
        self.tools.push(Tool::ReadFile(ReadFileTool));
        self.tools.push(Tool::WriteFile(WriteFileTool));
        self.tools.push(Tool::UpdateFile(UpdateFileTool));
        self.tools.push(Tool::SearchFiles(SearchFilesTool));
        self.tools.push(Tool::ListDirectory(ListDirectoryTool));
        self.tools.push(Tool::FileInfo(FileInfoTool));
        assert(self.tools@ =~= builtin_tools());
    }

    /// The safety manager that vets the calls.
    pub fn safety_manager(&self) -> (manager: &SafetyManager)
        ensures
            manager@ == self.safety(),
    {
        &self.safety_manager
    }

    /// Adds a directory in which the safety manager allows paths. Calls
    /// that are begun from now on are vetted with it.
    pub fn add_allowed_path(&mut self, path: String)
        ensures
            final(self).safety() == (ManagerModel {
                allowed: old(self).safety().allowed.push(path@),
                ..old(self).safety()
            }),
            final(self).tools() == old(self).tools(),
            final(self).config() == old(self).config(),
    {
        self.safety_manager.add_allowed_path(path);
    }

    /// Adds a directory, or a wild card, in which the safety manager
    /// forbids paths. Calls that are begun from now on are vetted with it.
    pub fn add_forbidden_path(&mut self, path: String)
        ensures
            final(self).safety() == (ManagerModel {
                forbidden: old(self).safety().forbidden.push(path@),
                ..old(self).safety()
            }),
            final(self).tools() == old(self).tools(),
            final(self).config() == old(self).config(),
    {
        self.safety_manager.add_forbidden_path(path);
    }

    /// The index of the tool of that name, or the number of tools.
    fn position(&self, name: &str) -> (at: usize)
        ensures
            at == index_of_tool(self.tools(), name@),
            at <= self.tools().len(),
    {
        let mut i: usize = 0;
        while i < self.tools.len()
            invariant
                i <= self.tools.len(),
                forall|k: int| 0 <= k < i ==> self.tools@[k].spec_name() != name@,
            decreases self.tools.len() - i,
        {
            if str_eq(self.tools[i].name(), name) {
                proof {
                    lemma_index_of_tool(self.tools@, name@);
                    let p = index_of_tool(self.tools@, name@);
                    if 0 <= p < i {
                        assert(self.tools@[p].spec_name() == name@);
                    }
                }
                return i;
            }
            i += 1;
        }
        proof {
            lemma_index_of_tool(self.tools@, name@);
            let p = index_of_tool(self.tools@, name@);
            if 0 <= p < i {
                assert(self.tools@[p].spec_name() == name@);
            }
        }
        i
    }

    /// The tool of that name.
    pub fn tool_named(&self, name: &str) -> (tool: Option<Tool>)
        ensures
            tool == find_tool(self.tools(), name@),
    {
        let at = self.position(name);
        if at < self.tools.len() {
            Some(self.tools[at])
        } else {
            None
        }
    }

    /// Registers a tool, unless one of its name is registered already.
    pub fn register_tool(&mut self, tool: Tool) -> (r: Result<(), ExecError>)
        requires
            old(self).wf(),
        ensures
            final(self).wf(),
            final(self).config() == old(self).config(),
            final(self).safety() == old(self).safety(),
            match find_tool(old(self).tools(), tool.spec_name()) {
                None => r is Ok && final(self).tools() == old(self).tools().push(tool),
                Some(_) => r is Err && r->Err_0.kind == ExecErrorKind::DuplicateTool
                    && r->Err_0.message@ == "Tool '"@ + tool.spec_name()
                    + "' is already registered"@ && final(self).tools() == old(self).tools(),
            },
    {
        let name = tool.name();
        let at = self.position(name);
        if at < self.tools.len() {
            return Err(
                ExecError {
                    kind: ExecErrorKind::DuplicateTool,
                    message: concat3("Tool '", name, "' is already registered"),
                },
            );
        }
        proof {
            lemma_index_of_tool(self.tools@, name@);
        }
        self.tools.push(tool);
        Ok(())
    }

    /// The names of the registered tools, in the order of their
    /// registration.
    pub fn available_tools(&self) -> (names: Vec<String>)
        ensures
            strings_view(names@) == names_of(self.tools()),
    {
        let mut names: Vec<String> = Vec::new();
        let mut i: usize = 0;
        while i < self.tools.len()
            invariant
                i <= self.tools.len(),
                names@.len() == i,
                forall|k: int| 0 <= k < i ==> names@[k]@ == self.tools@[k].spec_name(),
            decreases self.tools.len() - i,
        {
            names.push(self.tools[i].name().to_owned());
            i += 1;
        }
        assert(strings_view(names@) =~= names_of(self.tools@));
        names
    }

    /// What is known of the tool of that name.
    pub fn get_tool_info(&self, name: &str) -> (info: Option<ToolInfo>)
        ensures
            match info {
                Some(i) => find_tool(self.tools(), name@) is Some && i@ == info_model(
                    find_tool(self.tools(), name@)->0,
                ),
                None => find_tool(self.tools(), name@) is None,
            },
    {
        match self.tool_named(name) {
            Some(tool) => Some(ToolInfo::of(&tool)),
            None => None,
        }
    }

    /// What is known of each registered tool, in the order of their
    /// registration.
    pub fn get_all_tool_info(&self) -> (infos: Vec<ToolInfo>)
        ensures
            infos@.len() == self.tools().len(),
            forall|k: int|
                0 <= k < infos@.len() ==> (#[trigger] infos@[k])@ == info_model(self.tools()[k]),
    {
        let mut infos: Vec<ToolInfo> = Vec::new();
        let mut i: usize = 0;
        while i < self.tools.len()
            invariant
                i <= self.tools.len(),
                infos@.len() == i,
                forall|k: int| 0 <= k < i ==> (#[trigger] infos@[k])@ == info_model(self.tools@[k]),
            decreases self.tools.len() - i,
        {
            infos.push(ToolInfo::of(&self.tools[i]));
            i += 1;
        }
        infos
    }

    /// Whether a tool changes files: `write_file` and `update_file` do.
    pub fn is_file_modification_tool(&self, tool_name: &str) -> (r: bool)
        ensures
            r == spec_modifies_files(tool_name@),
    {
        str_eq(tool_name, "write_file") || str_eq(tool_name, "update_file")
    }

    /// Checks the parameters of a call against the schema of its tool.
    pub fn validate_tool_call(&self, tool_call: &ToolCall) -> (r: Result<(), ExecError>)
        ensures
            match find_tool(self.tools(), tool_call@.tool) {
                None => r is Err && r->Err_0.kind == ExecErrorKind::UnknownTool
                    && r->Err_0.message@ == "Unknown tool: "@ + tool_call@.tool,
                Some(tool) => reports(
                    r,
                    spec_validate(tool.spec_parameters(), tool_call@.parameters),
                ),
            },
    {
        let tool = match self.tool_named(tool_call.tool.as_str()) {
            Some(tool) => tool,
            None => {
                return Err(
                    ExecError {
                        kind: ExecErrorKind::UnknownTool,
                        message: concat2("Unknown tool: ", tool_call.tool.as_str()),
                    },
                );
            },
        };
        let schema = tool.parameters();
        validate_parameters(&schema, &tool_call.parameters)
    }

    /// What a dry run gives for a call: a preview, and nothing is done.
    fn execute_dry_run(&self, tool: &Tool, tool_call: ToolCall) -> (result: ToolResult)
        ensures
            result@ == ToolResultModel::success(
                preview_data(tool_call@, tool.spec_description()),
                Some(preview_message(tool_call@)),
            ),
    {
        let message = concat3(
            "DRY RUN: Would execute ",
            tool_call.tool.as_str(),
            " with given parameters",
        );
        let ToolCall { tool: name, parameters, thought: _, reasoning: _ } = tool_call;
        let mut data = no_members();
        add_member(&mut data, "description", JsonValue::text(tool.description()));
        add_member(&mut data, "dry_run", JsonValue::Bool(true));
        add_member(
            &mut data,
            "note",
            JsonValue::text("This is a preview - no actual changes were made"),
        );
        add_member(&mut data, "parameters", JsonValue::Object(parameters));
        add_member(&mut data, "tool", JsonValue::Text(name));
        ToolResult::success(JsonValue::Object(data), Some(message))
    }

    /// Begins the run of a tool call: the first step says what the run
    /// asks for, or that it is over already.
#[verifier::rlimit(40)]
    pub fn execute(&self, tool_call: ToolCall) -> (step: crate::run::Step)
        ensures
            begins(self.tools(), self.config(), self.safety(), tool_call@, step),
    {
        let tool = match self.tool_named(tool_call.tool.as_str()) {
            Some(tool) => tool,
            None => {
                return crate::run::give_up(
                    ExecErrorKind::UnknownTool,
                    concat2("Unknown tool: ", tool_call.tool.as_str()),
                );
            },
        };
        match self.safety_manager.check_tool_call(&tool_call) {
            Err(e) => {
                let refusal = ToolResult::error(
                    concat2("Safety check failed: ", e.message.as_str()),
                );
                return crate::run::Step {
                    run: crate::run::Run { backup: None, stage: crate::run::Stage::Finished },
                    action: crate::run::Action::Finish(Ok(refusal)),
                };
            },
            Ok(_) => {},
        }
        if self.config.dry_run_mode {
            let preview = self.execute_dry_run(&tool, tool_call);
            return crate::run::Step {
                run: crate::run::Run { backup: None, stage: crate::run::Stage::Finished },
                action: crate::run::Action::Finish(Ok(preview)),
            };
        }
        if self.is_file_modification_tool(tool_call.tool.as_str()) && self.config.auto_backup {
            match param_text(&tool_call.parameters, "path") {
                Some(path) => {
                    let path = path.clone();
                    return crate::run::Step {
                        action: crate::run::Action::Probe { path: path.clone() },
                        run: crate::run::Run {
                            backup: None,
                            stage: crate::run::Stage::BackupProbe { tool, call: tool_call, path },
                        },
                    };
                },
                None => {},
            }
        }
        crate::run::start_tool(tool, tool_call, None)
    }

    /// Where the copy of a file goes that is made at the time of `stamp`.
    pub fn generate_backup_path(&self, original_path: &str, stamp: &str) -> (r: Result<
        String,
        ExecError,
    >)
        ensures
            match spec_backup_path(original_path@, stamp@) {
                Some(path) => r is Ok && r->Ok_0@ == path,
                None => r is Err && r->Err_0.kind == ExecErrorKind::InvalidFileName
                    && r->Err_0.message@ == "Invalid file name"@,
            },
    {
        backup_path(original_path, stamp)
    }
}

/// Where the copy of a file goes that is made at the time of `stamp`.
pub fn backup_path(original_path: &str, stamp: &str) -> (r: Result<String, ExecError>)
    ensures
        match spec_backup_path(original_path@, stamp@) {
            Some(path) => r is Ok && r->Ok_0@ == path,
            None => r is Err && r->Err_0.kind == ExecErrorKind::InvalidFileName
                && r->Err_0.message@ == "Invalid file name"@,
        },
{
    let original = chars_of(original_path);
    let mut name = match file_name(original.as_slice()) {
        Some(name) => name,
        None => {
            return Err(
                ExecError {
                    kind: ExecErrorKind::InvalidFileName,
                    message: "Invalid file name".to_owned(),
                },
            );
        },
    };
    append_str(&mut name, ".backup_");
    append_str(&mut name, stamp);
    match parent(original.as_slice()) {
        Some(dir) => Ok(string_of(join_path(dir.as_slice(), name.as_slice()).as_slice())),
        None => Ok(string_of(name.as_slice())),
    }
}

/// A call of a tool that is not registered is an error, not a result.
pub proof fn lemma_unknown_tool_is_an_error(
    tools: Seq<Tool>,
    config: crate::agent::ConfigModel,
    safety: ManagerModel,
    call: ToolCallModel,
    step: crate::run::Step,
)
    requires
        find_tool(tools, call.tool) is None,
        begins(tools, config, safety, call, step),
    ensures
        step.action matches crate::run::Action::Finish(Err(e)) && e.kind
            == ExecErrorKind::UnknownTool,
{
}

/// A call that the safety manager turns down is never run: it ends at
/// once with a failure for a result, which says why.
pub proof fn lemma_refused_calls_do_not_run(
    tools: Seq<Tool>,
    config: crate::agent::ConfigModel,
    safety: ManagerModel,
    call: ToolCallModel,
    step: crate::run::Step,
)
    requires
        find_tool(tools, call.tool) is Some,
        spec_verdict(safety, call) is Some,
        begins(tools, config, safety, call, step),
    ensures
        step.action matches crate::run::Action::Finish(Ok(result)) && !result.success
            && result@.message == Some(
            "Safety check failed: "@ + crate::safety::words_of(spec_verdict(safety, call))->0,
        ),
{
}

/// Whatever a run asks for, its call has passed the safety manager.
pub proof fn lemma_only_vetted_calls_run(
    tools: Seq<Tool>,
    config: crate::agent::ConfigModel,
    safety: ManagerModel,
    call: ToolCallModel,
    step: crate::run::Step,
)
    requires
        begins(tools, config, safety, call, step),
        !(step.action is Finish),
    ensures
        find_tool(tools, call.tool) is Some,
        spec_verdict(safety, call) is None,
        !config.dry_run_mode,
{
}

/// In a dry run nothing is asked for: the first step ends the run. For
/// a known tool and a call that passes the safety manager the result is a
/// success that shows the call.
pub proof fn lemma_dry_run_asks_nothing(
    tools: Seq<Tool>,
    config: crate::agent::ConfigModel,
    safety: ManagerModel,
    call: ToolCallModel,
    step: crate::run::Step,
)
    requires
        config.dry_run_mode,
        begins(tools, config, safety, call, step),
    ensures
        step.action is Finish,
        step.run.stage is Finished,
        find_tool(tools, call.tool) is Some && spec_verdict(safety, call) is None ==> (
        step.action matches crate::run::Action::Finish(Ok(result)) && result.success && result@.data
            == preview_data(call, find_tool(tools, call.tool)->0.spec_description())
            && result@.modified_files.len() == 0),
{
}

/// With backups on, a call that is to change a file is not begun before
/// the file is copied: the run first asks what stands at the path; where a
/// file stands there, it asks for a copy beside it, named after it with
/// `.backup_` and the time stamp of a moment; and only the report that the
/// copy was made
/// lets the tool begin, with the place of the copy noted. A copy that
/// fails ends the run with an error.
pub proof fn lemma_backup_comes_first(
    tools: Seq<Tool>,
    config: crate::agent::ConfigModel,
    safety: ManagerModel,
    call: ToolCallModel,
    path: Seq<char>,
    first: crate::run::Step,
    second: crate::run::Step,
    copied: Result<(), String>,
    third: crate::run::Step,
)
    requires
        find_tool(tools, call.tool) is Some,
        spec_verdict(safety, call) is None,
        config.auto_backup,
        !config.dry_run_mode,
        spec_modifies_files(call.tool),
        spec_param_text(call.parameters, "path"@) == Some(path),
        spec_file_name(path) is Some,
        begins(tools, config, safety, call, first),
        crate::run::follows(
            first.run,
            crate::run::Event::Probed(crate::tools::PathKind::File),
            second,
        ),
        crate::run::follows(second.run, crate::run::Event::Copied(copied), third),
    ensures
        first.action matches crate::run::Action::Probe { path: asked } && asked@ == path,
        second.action matches crate::run::Action::CopyFile { from, to } && from@ == path && (
        exists|time: UtcTime|
            time.wf() && spec_backup_path(path, #[trigger] spec_stamp(time)) == Some(to@)),
        copied is Ok ==> (second.action matches crate::run::Action::CopyFile { from, to }
            && crate::run::tool_begins(
            find_tool(tools, call.tool)->0,
            call.parameters,
            Some(to@),
            third,
        )),
        copied is Err ==> (third.action matches crate::run::Action::Finish(Err(e)) && e.kind
            == ExecErrorKind::BackupFailed),
{
    let time = choose|time: UtcTime|
        time.wf() && #[trigger] crate::run::asks_for_copy(
            second,
            find_tool(tools, call.tool)->0,
            first.run.stage->BackupProbe_call@,
            path,
            spec_stamp(time),
        );
    assert(time.wf() && crate::run::asks_for_copy(
        second,
        find_tool(tools, call.tool)->0,
        first.run.stage->BackupProbe_call@,
        path,
        spec_stamp(time),
    ));
}

/// Where no file stands at the path, or backups are off, the tool begins
/// without a copy.
pub proof fn lemma_nothing_to_back_up(
    tools: Seq<Tool>,
    config: crate::agent::ConfigModel,
    safety: ManagerModel,
    call: ToolCallModel,
    first: crate::run::Step,
    kind: crate::tools::PathKind,
    second: crate::run::Step,
)
    requires
        find_tool(tools, call.tool) is Some,
        spec_verdict(safety, call) is None,
        !config.dry_run_mode,
        begins(tools, config, safety, call, first),
        wants_backup(config, call) is Some,
        kind != crate::tools::PathKind::File,
        crate::run::follows(first.run, crate::run::Event::Probed(kind), second),
    ensures
        crate::run::tool_begins(find_tool(tools, call.tool)->0, call.parameters, None, second),
{
}

/// A forbidden entry binds the run: a call of a file operation on a path
/// that an entry of the safety manager's list covers is never begun. It
/// ends at once, with a failure for a result, and nothing is asked for.
pub proof fn lemma_forbidden_paths_are_not_opened(
    tools: Seq<Tool>,
    config: crate::agent::ConfigModel,
    safety: ManagerModel,
    call: ToolCallModel,
    path: Seq<char>,
    entry: int,
    step: crate::run::Step,
)
    requires
        find_tool(tools, call.tool) is Some,
        crate::safety::spec_is_file_operation(call.tool),
        spec_param_text(call.parameters, "path"@) == Some(path),
        0 <= entry < safety.forbidden.len(),
        crate::paths::spec_normalize(
            spec_join_path(safety.config.working_directory, path),
        ) matches Some(stack) && crate::safety::forbidden_by(stack, safety.forbidden[entry]),
        begins(tools, config, safety, call, step),
    ensures
        step.action matches crate::run::Action::Finish(Ok(result)) && !result.success,
{
    crate::safety::lemma_forbidden_entries_bind(safety, call, path, entry);
}

} // verus!
