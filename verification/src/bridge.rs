//! What passes between the agent and a model: the turns of a conversation,
//! the tool calls that a model asks for, and what it is told of their
//! results.

use crate::json::{
    fields_view, items_view, lemma_items_view, parse_json, parsed_json, JsonModel, JsonNumber,
    JsonValue,
};
use crate::text::{
    append_str, chars_of, decimal_string, spec_decimal, spec_trim, str_eq, string_of, trim,
    CharClass,
};
use crate::tools::{
    add_item, add_member, no_items, no_members, strings_view, ToolCall, ToolCallModel, ToolResult,
    ToolResultModel,
};
use vstd::prelude::*;

verus! {

/// A piece of text in a turn.
#[derive(Debug, PartialEq, Eq)]
pub struct Part {
    pub text: String,
}

/// A call of a tool as a model asks for it.
#[derive(Debug, PartialEq, Eq)]
pub struct ModelToolCall {
    pub id: Option<String>,
    pub name: String,
    pub arguments: JsonValue,
}

/// A turn of a conversation.
#[derive(Debug, PartialEq, Eq)]
pub struct Content {
    pub role: String,
    pub parts: Vec<Part>,
    pub name: Option<String>,
    pub tool_call_id: Option<String>,
    pub tool_calls: Vec<ModelToolCall>,
}

/// The instruction that a model is given before the conversation.
#[derive(Debug, PartialEq, Eq)]
pub struct SystemInstruction {
    pub parts: Vec<Part>,
}

/// The texts of the parts.
pub open spec fn parts_view(parts: Seq<Part>) -> Seq<Seq<char>> {
    Seq::new(parts.len(), |i: int| parts[i].text@)
}

/// A turn that holds text alone: who speaks, and the texts.
pub struct TurnModel {
    pub role: Seq<char>,
    pub parts: Seq<Seq<char>>,
}

impl Content {
    /// The turn is that of `role` with these texts, and bears no name and
    /// no tool call.
    pub open spec fn is_plain(&self, turn: TurnModel) -> bool {
        &&& self.role@ == turn.role
        &&& parts_view(self.parts@) == turn.parts
        &&& self.name is None
        &&& self.tool_call_id is None
        &&& self.tool_calls@.len() == 0
    }

    /// A turn of the user with one text.
    pub fn user(text: String) -> (turn: Content)
        ensures
            turn.is_plain(TurnModel { role: "user"@, parts: seq![text@] }),
    {
        let mut parts: Vec<Part> = Vec::new();
        parts.push(Part { text });
        assert(parts_view(parts@) =~= seq![text@]);
        Content {
            role: "user".to_owned(),
            parts,
            name: None,
            tool_call_id: None,
            tool_calls: Vec::new(),
        }
    }

    /// A turn of the model with one text.
    pub fn model(text: String) -> (turn: Content)
        ensures
            turn.is_plain(TurnModel { role: "model"@, parts: seq![text@] }),
    {
        let mut parts: Vec<Part> = Vec::new();
        parts.push(Part { text });
        assert(parts_view(parts@) =~= seq![text@]);
        Content {
            role: "model".to_owned(),
            parts,
            name: None,
            tool_call_id: None,
            tool_calls: Vec::new(),
        }
    }
}

/// The role under which a turn is passed on to Gemini: `user` stays,
/// `model` and `assistant` become `model`, and a turn of any other role is
/// left out.
pub open spec fn gemini_role(role: Seq<char>) -> Option<Seq<char>> {
    if role == "user"@ {
        Some("user"@)
    } else if role == "model"@ || role == "assistant"@ {
        Some("model"@)
    } else {
        None
    }
}

/// The turns that are passed on to Gemini, in their order, with the
/// texts of their parts.
pub open spec fn spec_normalize_conversation(conversation: Seq<Content>) -> Seq<TurnModel>
    decreases conversation.len(),
{
    if conversation.len() == 0 {
        Seq::empty()
    } else {
        let rest = spec_normalize_conversation(conversation.drop_last());
        match gemini_role(conversation.last().role@) {
            Some(role) => rest.push(
                TurnModel { role, parts: parts_view(conversation.last().parts@) },
            ),
            None => rest,
        }
    }
}

fn copy_parts(parts: &Vec<Part>) -> (copy: Vec<Part>)
    ensures
        parts_view(copy@) == parts_view(parts@),
{
    let mut copy: Vec<Part> = Vec::new();
    let mut i: usize = 0;
    while i < parts.len()
        invariant
            i <= parts.len(),
            copy@.len() == i,
            forall|k: int| 0 <= k < i ==> copy@[k].text@ == parts@[k].text@,
        decreases parts.len() - i,
    {
        copy.push(Part { text: parts[i].text.clone() });
        i += 1;
    }
    assert(parts_view(copy@) =~= parts_view(parts@));
    copy
}

/// Makes a conversation fit for Gemini: the turns of the user and of the
/// model stay, as plain turns, and the others are left out.
#[verifier::rlimit(40)]
pub fn normalize_conversation_for_gemini(conversation: &[Content]) -> (turns: Vec<Content>)
    ensures
        turns@.len() == spec_normalize_conversation(conversation@).len(),
        forall|k: int|
            0 <= k < turns@.len() ==> (#[trigger] turns@[k]).is_plain(
                spec_normalize_conversation(conversation@)[k],
            ),
{
    let mut turns: Vec<Content> = Vec::new();
    let mut i: usize = 0;
    assert(conversation@.take(0) =~= Seq::empty());
    while i < conversation.len()
        invariant
            i <= conversation.len(),
            turns@.len() == spec_normalize_conversation(conversation@.take(i as int)).len(),
            forall|k: int|
                0 <= k < turns@.len() ==> (#[trigger] turns@[k]).is_plain(
                    spec_normalize_conversation(conversation@.take(i as int))[k],
                ),
        decreases conversation.len() - i,
    {
        let ghost next = conversation@.take(i + 1);
        assert(next.drop_last() =~= conversation@.take(i as int));
        assert(next.last() == conversation@[i as int]);
        let turn = &conversation[i];
        let role = turn.role.as_str();
        if str_eq(role, "user") {
            turns.push(
                Content {
                    role: "user".to_owned(),
                    parts: copy_parts(&turn.parts),
                    name: None,
                    tool_call_id: None,
                    tool_calls: Vec::new(),
                },
            );
        } else if str_eq(role, "model") || str_eq(role, "assistant") {
            turns.push(
                Content {
                    role: "model".to_owned(),
                    parts: copy_parts(&turn.parts),
                    name: None,
                    tool_call_id: None,
                    tool_calls: Vec::new(),
                },
            );
        }
        i += 1;
    }
    assert(conversation@.take(conversation@.len() as int) =~= conversation@);
    turns
}

/// Why the arguments of a model's call cannot be used.
#[derive(Debug, PartialEq, Eq)]
pub enum ArgumentError {
    /// They are a string that is not well-formed JSON.
    Unparsable,
    /// They are neither an object nor a string; the value that they are.
    NotAnObject(JsonValue),
}

/// The mathematical form of an `ArgumentError`.
pub enum ArgumentErrorModel {
    Unparsable,
    NotAnObject(JsonModel),
}

impl View for ArgumentError {
    type V = ArgumentErrorModel;

    open spec fn view(&self) -> ArgumentErrorModel {
        match self {
            ArgumentError::Unparsable => ArgumentErrorModel::Unparsable,
            ArgumentError::NotAnObject(v) => ArgumentErrorModel::NotAnObject(v@),
        }
    }
}

/// How far a string is from being unwrapped: its length, and one more
/// than any value that is no string.
pub open spec fn wrapping(value: JsonModel) -> nat {
    match value {
        JsonModel::Text(s) => s.len() + 1,
        _ => 0,
    }
}

/// The arguments of a model's call, by name. Null stands for none, an
/// object for its members, and a string for what the JSON in it stands for
/// (nothing, where it is blank). A string within a string has to be shorter
/// than it, as the text of a JSON string always is.
pub open spec fn spec_argument_map(value: JsonModel) -> Result<
    Seq<(Seq<char>, JsonModel)>,
    ArgumentErrorModel,
>
    decreases wrapping(value),
{
    match value {
        JsonModel::Null => Ok(Seq::empty()),
        JsonModel::Object(fields) => Ok(fields),
        JsonModel::Text(s) => if spec_trim(s, CharClass::Whitespace).len() == 0 {
            Ok(Seq::empty())
        } else {
            match parsed_json(s) {
                Some(inner) => if wrapping(inner) < wrapping(value) {
                    spec_argument_map(inner)
                } else {
                    Err(ArgumentErrorModel::Unparsable)
                },
                None => Err(ArgumentErrorModel::Unparsable),
            }
        },
        other => Err(ArgumentErrorModel::NotAnObject(other)),
    }
}

/// The outcome says what the arguments are.
pub open spec fn gives_arguments(
    outcome: Result<Vec<(String, JsonValue)>, ArgumentError>,
    arguments: Result<Seq<(Seq<char>, JsonModel)>, ArgumentErrorModel>,
) -> bool {
    match outcome {
        Ok(fields) => arguments == Ok::<Seq<(Seq<char>, JsonModel)>, ArgumentErrorModel>(
            fields_view(fields@),
        ),
        Err(e) => arguments == Err::<Seq<(Seq<char>, JsonModel)>, ArgumentErrorModel>(e@),
    }
}

/// Reads the arguments of a model's call.
pub fn extract_argument_map(value: &JsonValue) -> (r: Result<Vec<(String, JsonValue)>, ArgumentError>)
    ensures
        gives_arguments(r, spec_argument_map(value@)),
    decreases wrapping(value@),
{
    match value {
        JsonValue::Null => Ok(no_members()),
        JsonValue::Object(fields) => Ok(crate::json::duplicate_fields(fields)),
        JsonValue::Text(s) => {
            let text = chars_of(s.as_str());
            if trim(text.as_slice(), CharClass::Whitespace).len() == 0 {
                return Ok(no_members());
            }
            match parse_json(s.as_str()) {
                Some(inner) => {
                    let shorter = match &inner {
                        JsonValue::Text(t) => chars_of(t.as_str()).len() < text.len(),
                        _ => true,
                    };
                    if shorter {
                        extract_argument_map(&inner)
                    } else {
                        Err(ArgumentError::Unparsable)
                    }
                },
                None => Err(ArgumentError::Unparsable),
            }
        },
        other => Err(ArgumentError::NotAnObject(other.duplicate())),
    }
}

/// The tool call that a model asks for: the tool of its name with its
/// arguments, without thought or reasoning.
pub fn convert_model_tool_call(call: &ModelToolCall) -> (r: Result<ToolCall, ArgumentError>)
    ensures
        match r {
            Ok(tool_call) => spec_argument_map(call.arguments@) == Ok::<
                Seq<(Seq<char>, JsonModel)>,
                ArgumentErrorModel,
            >(tool_call@.parameters) && tool_call@ == (ToolCallModel {
                tool: call.name@,
                parameters: tool_call@.parameters,
                thought: None,
                reasoning: None,
            }),
            Err(e) => spec_argument_map(call.arguments@) == Err::<
                Seq<(Seq<char>, JsonModel)>,
                ArgumentErrorModel,
            >(e@),
        },
{
    match extract_argument_map(&call.arguments) {
        Ok(parameters) => Ok(
            ToolCall { tool: call.name.clone(), parameters, thought: None, reasoning: None },
        ),
        Err(e) => Err(e),
    }
}

/// Texts as JSON strings.
pub open spec fn texts_model(texts: Seq<Seq<char>>) -> Seq<JsonModel>
    decreases texts.len(),
{
    if texts.len() == 0 {
        Seq::empty()
    } else {
        texts_model(texts.drop_last()).push(JsonModel::Text(texts.last()))
    }
}

/// What a model is told of the result of a tool.
pub open spec fn spec_result_payload(tool_name: Seq<char>, result: ToolResultModel) -> JsonModel {
    JsonModel::Object(
        Seq::empty().push(("data"@, result.data)).push(
            (
                "message"@,
                match result.message {
                    Some(m) => JsonModel::Text(m),
                    None => JsonModel::Null,
                },
            ),
        ).push(("modified_files"@, JsonModel::Array(texts_model(result.modified_files)))).push(
            ("success"@, JsonModel::Bool(result.success)),
        ).push(("tool"@, JsonModel::Text(tool_name))),
    )
}

/// Makes what a model is told of the result of a tool.
pub fn build_tool_result_payload(tool_name: &str, result: &ToolResult) -> (payload: JsonValue)
    ensures
        payload@ == spec_result_payload(tool_name@, result@),
{
    let mut files = no_items();
    let mut i: usize = 0;
    assert(strings_view(result.modified_files@).take(0) =~= Seq::empty());
    while i < result.modified_files.len()
        invariant
            i <= result.modified_files.len(),
            items_view(files@) == texts_model(strings_view(result.modified_files@).take(i as int)),
        decreases result.modified_files.len() - i,
    {
        let ghost next = strings_view(result.modified_files@).take(i + 1);
        assert(next.drop_last() =~= strings_view(result.modified_files@).take(i as int));
        assert(next.last() == result.modified_files@[i as int]@);
        add_item(&mut files, JsonValue::text(result.modified_files[i].as_str()));
        i += 1;
    }
    assert(strings_view(result.modified_files@).take(result.modified_files@.len() as int)
        =~= strings_view(result.modified_files@));
    let message = match &result.message {
        Some(m) => JsonValue::text(m.as_str()),
        None => JsonValue::Null,
    };
    let mut payload = no_members();
    add_member(&mut payload, "data", result.data.duplicate());
    add_member(&mut payload, "message", message);
    add_member(&mut payload, "modified_files", JsonValue::Array(files));
    add_member(&mut payload, "success", JsonValue::Bool(result.success));
    add_member(&mut payload, "tool", JsonValue::text(tool_name));
    JsonValue::Object(payload)
}

/// The text of a member of the data, or `unknown`.
pub open spec fn shown_text(data: JsonModel, key: Seq<char>) -> Seq<char> {
    match data.get(key) {
        Some(JsonModel::Text(t)) => t,
        _ => "unknown"@,
    }
}

/// The number of a member of the data, or zero.
pub open spec fn shown_number(data: JsonModel, key: Seq<char>) -> nat {
    match data.get(key) {
        Some(JsonModel::Number(JsonNumber::Unsigned(n))) => n as nat,
        _ => 0,
    }
}

/// The line that shows one match of a search, where it has a file, a
/// line number and a content; `index` counts from zero.
pub open spec fn match_line(found: JsonModel, index: int) -> Seq<char> {
    match (found.get("file"@), found.get("line"@), found.get("content"@)) {
        (
            Some(JsonModel::Text(file)),
            Some(JsonModel::Number(JsonNumber::Unsigned(line))),
            Some(JsonModel::Text(content)),
        ) => "\n"@ + spec_decimal((index + 1) as nat) + ". **"@ + file + ":"@ + spec_decimal(
            line as nat,
        ) + "** `"@ + content + "`"@,
        _ => Seq::empty(),
    }
}

/// The lines that show the first `count` matches.
pub open spec fn match_lines(found: Seq<JsonModel>, count: int) -> Seq<char>
    decreases count,
{
    if count <= 0 || count > found.len() {
        Seq::empty()
    } else {
        match_lines(found, count - 1) + match_line(found[count - 1], count - 1)
    }
}

/// The line that shows one entry of a directory, where it has a name and
/// a type.
pub open spec fn entry_line(entry: JsonModel) -> Seq<char> {
    match (entry.get("name"@), entry.get("type"@)) {
        (Some(JsonModel::Text(name)), Some(JsonModel::Text(kind))) => "\n"@ + (if kind
            == "directory"@ {
            "📁"@
        } else {
            "📄"@
        }) + " "@ + name,
        _ => Seq::empty(),
    }
}

/// The lines that show the first `count` entries.
pub open spec fn entry_lines(entries: Seq<JsonModel>, count: int) -> Seq<char>
    decreases count,
{
    if count <= 0 || count > entries.len() {
        Seq::empty()
    } else {
        entry_lines(entries, count - 1) + entry_line(entries[count - 1])
    }
}

/// The smaller of a length and a limit.
pub open spec fn at_most(len: nat, limit: nat) -> int {
    if len < limit {
        len as int
    } else {
        limit as int
    }
}

/// What is shown of the matches of a search: nothing where there are
/// none, else a heading, the first ten of them, and how many more there
/// are.
pub open spec fn shown_matches(data: JsonModel) -> Seq<char> {
    match data.get("results"@) {
        Some(JsonModel::Array(found)) => if found.len() == 0 {
            Seq::empty()
        } else {
            "\n\n**Matches:**"@ + match_lines(found, at_most(found.len(), 10)) + (if found.len()
                > 10 {
                "\n... and "@ + spec_decimal((found.len() - 10) as nat) + " more matches"@
            } else {
                Seq::empty()
            })
        },
        _ => Seq::empty(),
    }
}

/// What is shown of the entries of a directory: nothing where there are
/// none, else a heading, the first twenty of them, and how many more there
/// are.
pub open spec fn shown_entries(data: JsonModel) -> Seq<char> {
    match data.get("entries"@) {
        Some(JsonModel::Array(entries)) => if entries.len() == 0 {
            Seq::empty()
        } else {
            "\n\n**Contents:**"@ + entry_lines(entries, at_most(entries.len(), 20)) + (
            if entries.len() > 20 {
                "\n... and "@ + spec_decimal((entries.len() - 20) as nat) + " more entries"@
            } else {
                Seq::empty()
            })
        },
        _ => Seq::empty(),
    }
}

/// The result of a tool as it is shown in the conversation. Each built-in
/// tool has its own wording; of any other tool the message is shown.
pub open spec fn spec_format_tool_result(tool_name: Seq<char>, result: ToolResultModel) -> Seq<
    char,
> {
    let data = result.data;
    if tool_name == "read_file"@ {
        match data.get("content"@) {
            Some(JsonModel::Text(content)) => "📄 **File: "@ + shown_text(data, "path"@) + "** ("@
                + spec_decimal(shown_number(data, "size"@)) + " bytes)\n```\n"@ + content
                + "\n```"@,
            _ => "File read completed"@,
        }
    } else if tool_name == "write_file"@ {
        "💾 **File written:** "@ + shown_text(data, "path"@) + " ("@ + spec_decimal(
            shown_number(data, "size"@),
        ) + " bytes)"@
    } else if tool_name == "update_file"@ {
        "✏️ **File updated:** "@ + shown_text(data, "path"@) + " (operation: "@ + shown_text(
            data,
            "operation"@,
        ) + ")"@
    } else if tool_name == "search_files"@ {
        "🔍 **Search results for '"@ + shown_text(data, "pattern"@) + "':** "@ + spec_decimal(
            shown_number(data, "matches_found"@),
        ) + " matches in "@ + spec_decimal(shown_number(data, "files_searched"@)) + " files"@
            + shown_matches(data)
    } else if tool_name == "list_directory"@ {
        "📁 **Directory listing for '"@ + shown_text(data, "path"@) + "':** "@ + spec_decimal(
            shown_number(data, "entry_count"@),
        ) + " entries"@ + shown_entries(data)
    } else if tool_name == "file_info"@ {
        "ℹ️ **File info for '"@ + shown_text(data, "path"@) + "':** "@ + shown_text(
            data,
            "path"@,
        ) + " ("@ + spec_decimal(shown_number(data, "size"@)) + " bytes, type: "@ + shown_text(
            data,
            "type"@,
        ) + ")"@
    } else {
        match result.message {
            Some(m) => m,
            None => "Tool executed successfully"@,
        }
    }
}

fn text_of<'a>(data: &'a JsonValue, key: &str) -> (t: &'a str)
    ensures
        t@ == shown_text(data@, key@),
{
    match data.get(key) {
        Some(JsonValue::Text(t)) => t.as_str(),
        _ => "unknown",
    }
}

fn number_of(data: &JsonValue, key: &str) -> (n: u64)
    ensures
        n == shown_number(data@, key@),
{
    match data.get(key) {
        Some(JsonValue::Number(JsonNumber::Unsigned(n))) => *n,
        _ => 0,
    }
}

fn append_number(out: &mut Vec<char>, n: u128)
    ensures
        final(out)@ == old(out)@ + spec_decimal(n as nat),
{
    let digits = decimal_string(n);
    append_str(out, digits.as_str());
}

fn append_match(out: &mut Vec<char>, found: &JsonValue, index: usize)
    requires
        index < usize::MAX,
    ensures
        final(out)@ == old(out)@ + match_line(found@, index as int),
{
    let ghost before = out@;
    match (found.get("file"), found.get("line"), found.get("content")) {
        (
            Some(JsonValue::Text(file)),
            Some(JsonValue::Number(JsonNumber::Unsigned(line))),
            Some(JsonValue::Text(content)),
        ) => {
            append_str(out, "\n");
            append_number(out, (index + 1) as u128);
            append_str(out, ". **");
            append_str(out, file.as_str());
            append_str(out, ":");
            append_number(out, *line as u128);
            append_str(out, "** `");
            append_str(out, content.as_str());
            append_str(out, "`");
            assert(out@ =~= before + match_line(found@, index as int));
        },
        _ => {
            assert(out@ =~= before + match_line(found@, index as int));
        },
    }
}

fn append_entry(out: &mut Vec<char>, entry: &JsonValue)
    ensures
        final(out)@ == old(out)@ + entry_line(entry@),
{
    let ghost before = out@;
    match (entry.get("name"), entry.get("type")) {
        (Some(JsonValue::Text(name)), Some(JsonValue::Text(kind))) => {
            append_str(out, "\n");
            if str_eq(kind.as_str(), "directory") {
                append_str(out, "📁");
            } else {
                append_str(out, "📄");
            }
            append_str(out, " ");
            append_str(out, name.as_str());
            assert(out@ =~= before + entry_line(entry@));
        },
        _ => {
            assert(out@ =~= before + entry_line(entry@));
        },
    }
}

#[verifier::loop_isolation(false)]
#[verifier::rlimit(40)]
fn append_matches(out: &mut Vec<char>, data: &JsonValue)
    ensures
        final(out)@ == old(out)@ + shown_matches(data@),
{
    let ghost before = out@;
    let found = match data.get("results") {
        Some(JsonValue::Array(found)) => found,
        _ => {
            assert(out@ =~= before + shown_matches(data@));
            return ;
        },
    };
    proof {
        lemma_items_view(found@);
    }
    if found.len() == 0 {
        assert(out@ =~= before + shown_matches(data@));
        return ;
    }
    append_str(out, "\n\n**Matches:**");
    let ghost head = out@;
    let shown: usize = if found.len() < 10 {
        found.len()
    } else {
        10
    };
    let mut i: usize = 0;
    assert(head + match_lines(items_view(found@), 0) =~= head);
    while i < shown
        invariant
            i <= shown <= found.len(),
            out@ == head + match_lines(items_view(found@), i as int),
        decreases shown - i,
    {
        let ghost so_far = out@;
        append_match(out, &found[i], i);
        assert(items_view(found@)[i as int] == found@[i as int]@);
        assert(out@ =~= head + match_lines(items_view(found@), i + 1));
        i += 1;
    }
    if found.len() > 10 {
        append_str(out, "\n... and ");
        append_number(out, (found.len() - 10) as u128);
        append_str(out, " more matches");
    }
    assert(out@ =~= before + shown_matches(data@));
}

#[verifier::loop_isolation(false)]
#[verifier::rlimit(40)]
fn append_entries(out: &mut Vec<char>, data: &JsonValue)
    ensures
        final(out)@ == old(out)@ + shown_entries(data@),
{
    let ghost before = out@;
    let entries = match data.get("entries") {
        Some(JsonValue::Array(entries)) => entries,
        _ => {
            assert(out@ =~= before + shown_entries(data@));
            return ;
        },
    };
    proof {
        lemma_items_view(entries@);
    }
    if entries.len() == 0 {
        assert(out@ =~= before + shown_entries(data@));
        return ;
    }
    append_str(out, "\n\n**Contents:**");
    let ghost head = out@;
    let shown: usize = if entries.len() < 20 {
        entries.len()
    } else {
        20
    };
    let mut i: usize = 0;
    assert(head + entry_lines(items_view(entries@), 0) =~= head);
    while i < shown
        invariant
            i <= shown <= entries.len(),
            out@ == head + entry_lines(items_view(entries@), i as int),
        decreases shown - i,
    {
        append_entry(out, &entries[i]);
        assert(items_view(entries@)[i as int] == entries@[i as int]@);
        assert(out@ =~= head + entry_lines(items_view(entries@), i + 1));
        i += 1;
    }
    if entries.len() > 20 {
        append_str(out, "\n... and ");
        append_number(out, (entries.len() - 20) as u128);
        append_str(out, " more entries");
    }
    assert(out@ =~= before + shown_entries(data@));
}

/// Words the result of a tool for the conversation.
#[verifier::rlimit(40)]
pub fn format_tool_result(tool_name: &str, result: &ToolResult) -> (text: String)
    ensures
        text@ == spec_format_tool_result(tool_name@, result@),
{
    let data = &result.data;
    let mut out: Vec<char> = Vec::new();
    if str_eq(tool_name, "read_file") {
        match data.get("content") {
            Some(JsonValue::Text(content)) => {
                append_str(&mut out, "📄 **File: ");
                append_str(&mut out, text_of(data, "path"));
                append_str(&mut out, "** (");
                append_number(&mut out, number_of(data, "size") as u128);
                append_str(&mut out, " bytes)\n```\n");
                append_str(&mut out, content.as_str());
                append_str(&mut out, "\n```");
            },
            _ => {
                append_str(&mut out, "File read completed");
            },
        }
    } else if str_eq(tool_name, "write_file") {
        append_str(&mut out, "💾 **File written:** ");
        append_str(&mut out, text_of(data, "path"));
        append_str(&mut out, " (");
        append_number(&mut out, number_of(data, "size") as u128);
        append_str(&mut out, " bytes)");
    } else if str_eq(tool_name, "update_file") {
        append_str(&mut out, "✏️ **File updated:** ");
        append_str(&mut out, text_of(data, "path"));
        append_str(&mut out, " (operation: ");
        append_str(&mut out, text_of(data, "operation"));
        append_str(&mut out, ")");
    } else if str_eq(tool_name, "search_files") {
        append_str(&mut out, "🔍 **Search results for '");
        append_str(&mut out, text_of(data, "pattern"));
        append_str(&mut out, "':** ");
        append_number(&mut out, number_of(data, "matches_found") as u128);
        append_str(&mut out, " matches in ");
        append_number(&mut out, number_of(data, "files_searched") as u128);
        append_str(&mut out, " files");
        append_matches(&mut out, data);
    } else if str_eq(tool_name, "list_directory") {
        append_str(&mut out, "📁 **Directory listing for '");
        append_str(&mut out, text_of(data, "path"));
        append_str(&mut out, "':** ");
        append_number(&mut out, number_of(data, "entry_count") as u128);
        append_str(&mut out, " entries");
        append_entries(&mut out, data);
    } else if str_eq(tool_name, "file_info") {
        append_str(&mut out, "ℹ️ **File info for '");
        append_str(&mut out, text_of(data, "path"));
        append_str(&mut out, "':** ");
        append_str(&mut out, text_of(data, "path"));
        append_str(&mut out, " (");
        append_number(&mut out, number_of(data, "size") as u128);
        append_str(&mut out, " bytes, type: ");
        append_str(&mut out, text_of(data, "type"));
        append_str(&mut out, ")");
    } else {
        match &result.message {
            Some(m) => {
                append_str(&mut out, m.as_str());
            },
            None => {
                append_str(&mut out, "Tool executed successfully");
            },
        }
    }
    assert(out@ =~= spec_format_tool_result(tool_name@, result@));
    string_of(out.as_slice())
}

} // verus!
