//! Finding tool calls in a message: a line that is a tool call written as
//! JSON, and requests in plain words, which are guessed at.

use crate::json::{
    duplicate_fields, fields_view, parse_json, parsed_json, spec_lookup, JsonModel, JsonValue,
};
use crate::text::{
    chars_of, contains_str, find_char, join, lowercase_of, nested, slice_chars, spec_contains,
    spec_join, spec_lines, spec_trim, spec_words, split_lines, split_words, string_of,
    to_lowercase, trim, CharClass,
};
use crate::tools::{add_member, no_members, opt_view, ToolCall, ToolCallModel};
use vstd::prelude::*;

verus! {

/// An optional text of a tool call written as JSON: a member that is
/// missing or null is no text, a string is one, and anything else is
/// wrong.
pub open spec fn optional_text(value: Option<JsonModel>) -> Option<Option<Seq<char>>> {
    match value {
        None => Some(None),
        Some(JsonModel::Null) => Some(None),
        Some(JsonModel::Text(s)) => Some(Some(s)),
        Some(_) => None,
    }
}

/// The tool call that a JSON value stands for: an object whose `tool` is
/// a string and whose `parameters` is an object; `thought` and `reasoning`
/// are optional texts. Other members do not matter.
pub open spec fn call_from_json(value: JsonModel) -> Option<ToolCallModel> {
    match value {
        JsonModel::Object(fields) => match (
            spec_lookup(fields, "tool"@),
            spec_lookup(fields, "parameters"@),
            optional_text(spec_lookup(fields, "thought"@)),
            optional_text(spec_lookup(fields, "reasoning"@)),
        ) {
            (
                Some(JsonModel::Text(tool)),
                Some(JsonModel::Object(parameters)),
                Some(thought),
                Some(reasoning),
            ) => Some(ToolCallModel { tool, parameters, thought, reasoning }),
            _ => None,
        },
        _ => None,
    }
}

/// The view of an optional tool call.
pub open spec fn opt_call(call: Option<ToolCall>) -> Option<ToolCallModel> {
    match call {
        Some(c) => Some(c@),
        None => None,
    }
}

fn read_optional_text(value: Option<&JsonValue>) -> (r: Option<Option<String>>)
    ensures
        match r {
            Some(text) => optional_text(
                match value {
                    Some(v) => Some(v@),
                    None => None,
                },
            ) == Some(opt_view(text)),
            None => optional_text(
                match value {
                    Some(v) => Some(v@),
                    None => None,
                },
            ) is None,
        },
{
    match value {
        None => Some(None),
        Some(JsonValue::Null) => Some(None),
        Some(JsonValue::Text(s)) => Some(Some(s.clone())),
        Some(_) => None,
    }
}

/// Reads a tool call from a JSON value.
pub fn tool_call_from_json(value: &JsonValue) -> (call: Option<ToolCall>)
    ensures
        opt_call(call) == call_from_json(value@),
{
    let tool = match value.get("tool") {
        Some(JsonValue::Text(tool)) => tool.clone(),
        _ => { return None; },
    };
    let parameters = match value.get("parameters") {
        Some(JsonValue::Object(fields)) => duplicate_fields(fields),
        _ => { return None; },
    };
    let thought = match read_optional_text(value.get("thought")) {
        Some(t) => t,
        None => { return None; },
    };
    let reasoning = match read_optional_text(value.get("reasoning")) {
        Some(t) => t,
        None => { return None; },
    };
    Some(ToolCall { tool, parameters, thought, reasoning })
}

/// A line looks like a JSON object when it begins with `{` and ends with
/// `}`.
pub open spec fn spec_is_framed(line: Seq<char>) -> bool {
    line.len() > 0 && line[0] == '{' && line.last() == '}'
}

/// The tool call that a line stands for: the line, without white space
/// around it, looks like a JSON object, is well-formed JSON, and has the
/// shape of a tool call.
pub open spec fn call_of_line(line: Seq<char>) -> Option<ToolCallModel> {
    let text = spec_trim(line, CharClass::Whitespace);
    if spec_is_framed(text) {
        match parsed_json(text) {
            Some(value) => call_from_json(value),
            None => None,
        }
    } else {
        None
    }
}

/// The tool call of the first line, from index `i` on, that stands for
/// one.
pub open spec fn first_call_from(lines: Seq<Seq<char>>, i: int) -> Option<ToolCallModel>
    decreases lines.len() - i,
{
    if i < 0 || i >= lines.len() {
        None
    } else {
        match call_of_line(lines[i]) {
            Some(call) => Some(call),
            None => first_call_from(lines, i + 1),
        }
    }
}

/// The tool call of the first line of the message that stands for one.
pub open spec fn spec_json_tool_call(message: Seq<char>) -> Option<ToolCallModel> {
    first_call_from(spec_lines(message), 0)
}

/// Reads the tool call that a line stands for.
pub fn line_tool_call(line: &[char]) -> (call: Option<ToolCall>)
    ensures
        opt_call(call) == call_of_line(line@),
{
    let text = trim(line, CharClass::Whitespace);
    if text.len() > 0 && text[0] == '{' && text[text.len() - 1] == '}' {
        let source = string_of(text.as_slice());
        match parse_json(source.as_str()) {
            Some(value) => tool_call_from_json(&value),
            None => None,
        }
    } else {
        None
    }
}

/// Looks for a line of the message that is a tool call written as JSON,
/// and reads the first.
pub fn try_parse_json_tool_call(message: &str) -> (call: Option<ToolCall>)
    ensures
        opt_call(call) == spec_json_tool_call(message@),
{
    let text = chars_of(message);
    let lines = split_lines(text.as_slice());
    let mut i: usize = 0;
    while i < lines.len()
        invariant
            i <= lines.len(),
            nested(lines@) == spec_lines(message@),
            first_call_from(nested(lines@), i as int) == first_call_from(nested(lines@), 0),
        decreases lines.len() - i,
    {
        assert(nested(lines@)[i as int] == lines@[i as int]@);
        match line_tool_call(lines[i].as_slice()) {
            Some(call) => { return Some(call); },
            None => {},
        }
        i += 1;
    }
    None
}

/// Whether a word begins with a quotation mark.
pub open spec fn opens_quote(word: Seq<char>) -> bool {
    word.len() > 0 && CharClass::Quote.has(word[0])
}

/// Whether a word ends with a quotation mark.
pub open spec fn closes_quote(word: Seq<char>) -> bool {
    word.len() > 0 && CharClass::Quote.has(word.last())
}

/// The index of the first word, at or after `from`, that ends with a
/// quotation mark; or the number of words.
pub open spec fn closing_word(words: Seq<Seq<char>>, from: int) -> int
    decreases words.len() - from,
{
    if from < 0 || from >= words.len() {
        words.len() as int
    } else if closes_quote(words[from]) {
        from
    } else {
        closing_word(words, from + 1)
    }
}

/// Whether a word looks like a path: it holds a dot.
pub open spec fn looks_like_path(word: Seq<char>) -> bool {
    word.contains('.') && (word.contains('/') || !word.contains(' '))
}

/// The path that the words from index `i` on name: the first word that
/// looks like a path, or the first run of words from one that begins with
/// a quotation mark to one that ends with one, joined by blanks and
/// without the quotation marks at its ends.
pub open spec fn file_path_from(words: Seq<Seq<char>>, i: int) -> Option<Seq<char>>
    decreases words.len() - i,
{
    if i < 0 || i >= words.len() {
        None
    } else if looks_like_path(words[i]) {
        Some(words[i])
    } else if opens_quote(words[i]) && closing_word(words, i) < words.len() {
        Some(
            spec_trim(
                spec_join(words.subrange(i, closing_word(words, i) + 1), seq![' ']),
                CharClass::Quote,
            ),
        )
    } else {
        file_path_from(words, i + 1)
    }
}

/// The path that a message names, if it seems to name one.
pub open spec fn spec_extract_file_path(message: Seq<char>) -> Option<Seq<char>> {
    file_path_from(spec_words(message), 0)
}

/// The view of an optional text kept as characters.
pub open spec fn opt_chars(text: Option<Vec<char>>) -> Option<Seq<char>> {
    match text {
        Some(t) => Some(t@),
        None => None,
    }
}

fn has_char(word: &[char], c: char) -> (r: bool)
    ensures
        r == word@.contains(c),
{
    match find_char(word, c, 0) {
        Some(at) => {
            assert(word@[at as int] == c);
            true
        },
        None => false,
    }
}

fn closing_index(words: &Vec<Vec<char>>, from: usize) -> (at: usize)
    requires
        from <= words.len(),
    ensures
        at == closing_word(nested(words@), from as int),
        from <= at <= words.len(),
{
    let mut j: usize = from;
    while j < words.len()
        invariant
            from <= j <= words.len(),
            closing_word(nested(words@), j as int) == closing_word(nested(words@), from as int),
        decreases words.len() - j,
    {
        let w = words[j].as_slice();
        assert(nested(words@)[j as int] == w@);
        if w.len() > 0 && CharClass::Quote.holds(w[w.len() - 1]) {
            return j;
        }
        j += 1;
    }
    j
}

/// Guesses the path that a message names.
#[verifier::rlimit(40)]
pub fn extract_file_path(message: &[char]) -> (path: Option<Vec<char>>)
    ensures
        opt_chars(path) == spec_extract_file_path(message@),
{
    let words = split_words(message);
    let mut i: usize = 0;
    while i < words.len()
        invariant
            i <= words.len(),
            nested(words@) == spec_words(message@),
            file_path_from(nested(words@), i as int) == file_path_from(nested(words@), 0),
        decreases words.len() - i,
    {
        let word = words[i].as_slice();
        assert(nested(words@)[i as int] == word@);
        if has_char(word, '.') && (has_char(word, '/') || !has_char(word, ' ')) {
            return Some(crate::text::copy_chars(word));
        }
        if word.len() > 0 && CharClass::Quote.holds(word[0]) {
            let end = closing_index(&words, i);
            if end < words.len() {
                let mut parts: Vec<Vec<char>> = Vec::new();
                let mut k: usize = i;
                while k <= end
                    invariant
                        i <= k <= end + 1,
                        end < words.len(),
                        nested(parts@) =~= nested(words@).subrange(i as int, k as int),
                    decreases end + 1 - k,
                {
                    let ghost before = parts@;
                    parts.push(crate::text::copy_chars(words[k].as_slice()));
                    assert(nested(parts@) =~= nested(before).push(words@[k as int]@));
                    k += 1;
                }
                let mut blank: Vec<char> = Vec::new();
                blank.push(' ');
                assert(blank@ =~= seq![' ']);
                let joined = join(&parts, blank.as_slice());
                return Some(trim(joined.as_slice(), CharClass::Quote));
            }
        }
        i += 1;
    }
    None
}

/// The index of the first `c` in `s` at or after `from`, or the length of
/// `s`.
pub open spec fn index_of(s: Seq<char>, c: char, from: int) -> int
    decreases s.len() - from,
{
    if from < 0 || from >= s.len() {
        s.len() as int
    } else if s[from] == c {
        from
    } else {
        index_of(s, c, from + 1)
    }
}

/// The text between the first `quote` of a message and the next one.
pub open spec fn quoted(message: Seq<char>, quote: char) -> Option<Seq<char>> {
    let start = index_of(message, quote, 0);
    let end = index_of(message, quote, start + 1);
    if start < message.len() && end < message.len() {
        Some(message.subrange(start + 1, end))
    } else {
        None
    }
}

/// The index of the first occurrence of `needle` in `s` at or after
/// `from`, or the length of `s`.
pub open spec fn index_of_text(s: Seq<char>, needle: Seq<char>, from: int) -> int
    decreases s.len() - from,
{
    if from < 0 || from >= s.len() {
        s.len() as int
    } else if crate::text::occurs_at(s, needle, from) {
        from
    } else {
        index_of_text(s, needle, from + 1)
    }
}

/// The word that follows the first ` for ` of a message: what stands
/// between it and the next blank, or the end.
pub open spec fn after_for(message: Seq<char>) -> Option<Seq<char>> {
    let at = index_of_text(message, " for "@, 0);
    if at < message.len() {
        Some(message.subrange(at + 5, index_of(message, ' ', at + 5)))
    } else {
        None
    }
}

/// What a message asks to search for: what it quotes, in double or else
/// in single quotation marks, or else the word after ` for `.
pub open spec fn spec_extract_search_pattern(message: Seq<char>) -> Option<Seq<char>> {
    match quoted(message, '"') {
        Some(text) => Some(text),
        None => match quoted(message, '\'') {
            Some(text) => Some(text),
            None => after_for(message),
        },
    }
}

fn first_index(s: &[char], c: char, from: usize) -> (at: usize)
    ensures
        at == index_of(s@, c, from as int),
        at <= s.len(),
        from <= s.len() ==> from <= at,
{
    if from >= s.len() {
        return s.len();
    }
    let mut i: usize = from;
    while i < s.len()
        invariant
            from <= i <= s.len(),
            index_of(s@, c, i as int) == index_of(s@, c, from as int),
        decreases s.len() - i,
    {
        if s[i] == c {
            return i;
        }
        i += 1;
    }
    i
}

fn quoted_text(message: &[char], quote: char) -> (text: Option<Vec<char>>)
    ensures
        opt_chars(text) == quoted(message@, quote),
{
    let start = first_index(message, quote, 0);
    if start >= message.len() {
        return None;
    }
    let end = first_index(message, quote, start + 1);
    if end >= message.len() {
        return None;
    }
    Some(slice_chars(message, start + 1, end))
}

fn first_index_of_text(s: &[char], needle: &[char]) -> (at: usize)
    ensures
        at == index_of_text(s@, needle@, 0),
        at <= s.len(),
        at < s.len() ==> crate::text::occurs_at(s@, needle@, at as int),
{
    let mut i: usize = 0;
    while i < s.len()
        invariant
            i <= s.len(),
            index_of_text(s@, needle@, i as int) == index_of_text(s@, needle@, 0),
        decreases s.len() - i,
    {
        if crate::text::matches_at(s, needle, i) {
            return i;
        }
        i += 1;
    }
    i
}

/// Guesses what a message asks to search for.
pub fn extract_search_pattern(message: &[char]) -> (pattern: Option<Vec<char>>)
    ensures
        opt_chars(pattern) == spec_extract_search_pattern(message@),
{
    match quoted_text(message, '"') {
        Some(text) => { return Some(text); },
        None => {},
    }
    match quoted_text(message, '\'') {
        Some(text) => { return Some(text); },
        None => {},
    }
    let marker = chars_of(" for ");
    proof {
        reveal_strlit(" for ");
    }
    let at = first_index_of_text(message, marker.as_slice());
    if at < message.len() {
        assert(marker@.len() == 5);
        let end = first_index(message, ' ', at + 5);
        Some(slice_chars(message, at + 5, end))
    } else {
        None
    }
}

/// A tool call that a request in plain words is taken for.
pub open spec fn guessed_call(
    tool: Seq<char>,
    parameters: Seq<(Seq<char>, JsonModel)>,
    thought: Seq<char>,
    reasoning: Seq<char>,
) -> ToolCallModel {
    ToolCallModel { tool, parameters, thought: Some(thought), reasoning: Some(reasoning) }
}

/// The call to read a file that a message in lower case asks for.
pub open spec fn read_request(lower: Seq<char>) -> Option<ToolCallModel> {
    if spec_contains(lower, "read"@) && (spec_contains(lower, "file"@) || spec_contains(
        lower,
        "content"@,
    )) {
        match spec_extract_file_path(lower) {
            Some(path) => Some(
                guessed_call(
                    "read_file"@,
                    Seq::empty().push(("path"@, JsonModel::Text(path))),
                    "Reading file content as requested"@,
                    "User requested to read a file"@,
                ),
            ),
            None => None,
        }
    } else {
        None
    }
}

/// The call to search that a message in lower case asks for.
pub open spec fn search_request(lower: Seq<char>) -> Option<ToolCallModel> {
    if spec_contains(lower, "search"@) || spec_contains(lower, "find"@) {
        match spec_extract_search_pattern(lower) {
            Some(pattern) => Some(
                guessed_call(
                    "search_files"@,
                    Seq::empty().push(("pattern"@, JsonModel::Text(pattern))).push(
                        ("directory"@, JsonModel::Text("."@)),
                    ),
                    "Searching for files as requested"@,
                    "User requested to search for files"@,
                ),
            ),
            None => None,
        }
    } else {
        None
    }
}

/// The call to list a directory that a message in lower case asks for.
pub open spec fn list_request(lower: Seq<char>) -> Option<ToolCallModel> {
    if spec_contains(lower, "list"@) && (spec_contains(lower, "files"@) || spec_contains(
        lower,
        "directory"@,
    )) {
        Some(
            guessed_call(
                "list_directory"@,
                Seq::empty().push(
                    (
                        "path"@,
                        JsonModel::Text(
                            match spec_extract_file_path(lower) {
                                Some(path) => path,
                                None => "."@,
                            },
                        ),
                    ),
                ),
                "Listing directory contents as requested"@,
                "User requested to list files or directory contents"@,
            ),
        )
    } else {
        None
    }
}

/// A list with the call added, where there is one.
pub open spec fn with_call(calls: Seq<ToolCallModel>, call: Option<ToolCallModel>) -> Seq<
    ToolCallModel,
> {
    match call {
        Some(c) => calls.push(c),
        None => calls,
    }
}

/// The calls that the plain words of a message are taken for: to read a
/// file, to search, and to list a directory, in this order.
pub open spec fn spec_natural_language_tools(message: Seq<char>) -> Seq<ToolCallModel> {
    let lower = lowercase_of(message);
    with_call(
        with_call(with_call(Seq::empty(), read_request(lower)), search_request(lower)),
        list_request(lower),
    )
}

/// The calls that a message holds: the first line that is a tool call
/// written as JSON, then what its plain words are taken for.
pub open spec fn spec_parse_tool_calls(message: Seq<char>) -> Seq<ToolCallModel> {
    with_call(Seq::empty(), spec_json_tool_call(message)) + spec_natural_language_tools(message)
}

/// The views of a list of tool calls.
pub open spec fn calls_view(calls: Seq<ToolCall>) -> Seq<ToolCallModel> {
    Seq::new(calls.len(), |i: int| calls[i]@)
}

fn add_call(calls: &mut Vec<ToolCall>, call: ToolCall)
    ensures
        calls_view(final(calls)@) == calls_view(old(calls)@).push(call@),
{
    let ghost before = calls@;
    calls.push(call);
    assert(calls_view(calls@) =~= calls_view(before).push(call@));
}

fn guess(tool: &str, parameters: Vec<(String, JsonValue)>, thought: &str, reasoning: &str) -> (call:
    ToolCall)
    ensures
        call@ == guessed_call(tool@, fields_view(parameters@), thought@, reasoning@),
{
    ToolCall {
        tool: tool.to_owned(),
        parameters,
        thought: Some(thought.to_owned()),
        reasoning: Some(reasoning.to_owned()),
    }
}

/// Takes the plain words of a message for tool calls.
#[verifier::rlimit(40)]
pub fn parse_natural_language_tools(message: &str) -> (calls: Vec<ToolCall>)
    ensures
        calls_view(calls@) == spec_natural_language_tools(message@),
{
    let mut calls: Vec<ToolCall> = Vec::new();
    assert(calls_view(calls@) =~= Seq::empty());
    let lower_text = to_lowercase(message);
    let lower = chars_of(lower_text.as_str());
    let text = lower.as_slice();
    if contains_str(text, "read") && (contains_str(text, "file") || contains_str(text, "content")) {
        match extract_file_path(text) {
            Some(path) => {
                let mut parameters = no_members();
                add_member(&mut parameters, "path", JsonValue::text_of(path.as_slice()));
                add_call(
                    &mut calls,
                    guess(
                        "read_file",
                        parameters,
                        "Reading file content as requested",
                        "User requested to read a file",
                    ),
                );
            },
            None => {},
        }
    }
    if contains_str(text, "search") || contains_str(text, "find") {
        match extract_search_pattern(text) {
            Some(pattern) => {
                let mut parameters = no_members();
                add_member(&mut parameters, "pattern", JsonValue::text_of(pattern.as_slice()));
                add_member(&mut parameters, "directory", JsonValue::text("."));
                add_call(
                    &mut calls,
                    guess(
                        "search_files",
                        parameters,
                        "Searching for files as requested",
                        "User requested to search for files",
                    ),
                );
            },
            None => {},
        }
    }
    if contains_str(text, "list") && (contains_str(text, "files") || contains_str(
        text,
        "directory",
    )) {
        let directory = match extract_directory_path(text) {
            Some(path) => JsonValue::text_of(path.as_slice()),
            None => JsonValue::text("."),
        };
        let mut parameters = no_members();
        add_member(&mut parameters, "path", directory);
        add_call(
            &mut calls,
            guess(
                "list_directory",
                parameters,
                "Listing directory contents as requested",
                "User requested to list files or directory contents",
            ),
        );
    }
    calls
}

/// Guesses the directory that a message names: as a path is guessed.
pub fn extract_directory_path(message: &[char]) -> (path: Option<Vec<char>>)
    ensures
        opt_chars(path) == spec_extract_file_path(message@),
{
    extract_file_path(message)
}

/// Finds the tool calls in a message.
pub fn parse_tool_calls(message: &str) -> (calls: Vec<ToolCall>)
    ensures
        calls_view(calls@) == spec_parse_tool_calls(message@),
{
    let mut calls: Vec<ToolCall> = Vec::new();
    assert(calls_view(calls@) =~= Seq::empty());
    match try_parse_json_tool_call(message) {
        Some(call) => {
            add_call(&mut calls, call);
        },
        None => {},
    }
    let ghost first = calls_view(calls@);
    let mut guessed = parse_natural_language_tools(message);
    let ghost rest = calls_view(guessed@);
    calls.append(&mut guessed);
    assert(calls_view(calls@) =~= first + rest);
    calls
}

} // verus!
