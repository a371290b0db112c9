//! Regular expressions, wild cards and globs.
//!
//! Matching is left to the `regex` crate. What it decides is known here only
//! by name: whether a pattern compiles, whether it matches a text, and where.
//! How wild cards and globs are written as patterns is this module's own.

use crate::text::{append_chars, chars_of, replace_all, spec_replace, string_of};
use vstd::prelude::*;

verus! {

/// What `Regex::new` makes of a pattern: `None` where it compiles, else the
/// text of the error.
pub uninterp spec fn compile_failure(pattern: Seq<char>) -> Option<Seq<char>>;

/// Whether `Regex::is_match` finds the compiled pattern anywhere in `text`.
pub uninterp spec fn regex_matches(pattern: Seq<char>, text: Seq<char>) -> bool;

/// The successive non-overlapping matches that `Regex::find_iter` yields
/// for the compiled pattern in `text`: for each its start and end, counted
/// in bytes, and the matched text.
pub uninterp spec fn regex_spans(pattern: Seq<char>, text: Seq<char>) -> Seq<
    (usize, usize, Seq<char>),
>;

/// Whether a pattern compiles.
pub open spec fn regex_valid(pattern: Seq<char>) -> bool {
    compile_failure(pattern) is None
}

/// Whether a pattern compiles and matches somewhere in `text`.
pub open spec fn spec_is_match(pattern: Seq<char>, text: Seq<char>) -> bool {
    regex_valid(pattern) && regex_matches(pattern, text)
}

/// One match of a pattern in a text.
#[derive(Debug, PartialEq, Eq)]
pub struct MatchSpan {
    /// The byte offset at which the match starts.
    pub start: usize,
    /// The byte offset at which the match ends.
    pub end: usize,
    /// The matched text.
    pub text: String,
}

/// The spans as plain values.
pub open spec fn spans_view(spans: Seq<MatchSpan>) -> Seq<(usize, usize, Seq<char>)> {
    Seq::new(spans.len(), |i: int| (spans[i].start, spans[i].end, spans[i].text@))
}

/// Compiles `pattern` with `Regex::new` and reports whether that worked;
/// where it did not, the error is handed back as its text.
#[verifier::external_body]
pub(crate) fn compile_check(pattern: &str) -> (outcome: Result<(), String>)
    ensures
        match outcome {
            Ok(_) => compile_failure(pattern@) is None,
            Err(message) => compile_failure(pattern@) == Some(message@),
        },
{
    match regex::Regex::new(pattern) {
        Ok(_) => Ok(()),
        Err(e) => Err(e.to_string()),
    }
}

/// Compiles `pattern` and asks `Regex::is_match` whether it matches
/// anywhere in `text`. A pattern that does not compile matches nothing.
#[verifier::external_body]
pub(crate) fn is_match(pattern: &str, text: &str) -> (found: bool)
    ensures
        found == (compile_failure(pattern@) is None && regex_matches(pattern@, text@)),
{
    match regex::Regex::new(pattern) {
        Ok(re) => re.is_match(text),
        Err(_) => false,
    }
}

/// Compiles `pattern` and collects what `Regex::find_iter` yields in
/// `text`, each match with its `start`, `end` and `as_str`. A pattern that
/// does not compile yields nothing.
#[verifier::external_body]
pub(crate) fn find_spans(pattern: &str, text: &str) -> (spans: Vec<MatchSpan>)
    ensures
        compile_failure(pattern@) is None ==> spans_view(spans@) == regex_spans(pattern@, text@),
        compile_failure(pattern@) is Some ==> spans@.len() == 0,
{
    match regex::Regex::new(pattern) {
        Ok(re) => re.find_iter(text).map(
            |m| MatchSpan { start: m.start(), end: m.end(), text: m.as_str().to_string() },
        ).collect(),
        Err(_) => Vec::new(),
    }
}

/// The characters that mean something in a pattern.
pub open spec fn spec_is_meta(c: char) -> bool {
    ||| c == '\\'
    ||| c == '.'
    ||| c == '+'
    ||| c == '*'
    ||| c == '?'
    ||| c == '('
    ||| c == ')'
    ||| c == '|'
    ||| c == '['
    ||| c == ']'
    ||| c == '{'
    ||| c == '}'
    ||| c == '^'
    ||| c == '$'
    ||| c == '#'
    ||| c == '&'
    ||| c == '-'
    ||| c == '~'
}

/// `text` with a backslash before each character that means something in
/// a pattern.
pub open spec fn spec_escape(text: Seq<char>) -> Seq<char>
    decreases text.len(),
{
    if text.len() == 0 {
        Seq::empty()
    } else if spec_is_meta(text.last()) {
        spec_escape(text.drop_last()).push('\\').push(text.last())
    } else {
        spec_escape(text.drop_last()).push(text.last())
    }
}

/// Escapes a text with `regex::escape`, which puts a backslash before each
/// meta character and leaves the others as they are.
#[verifier::external_body]
pub(crate) fn escape(text: &str) -> (escaped: String)
    ensures
        escaped@ == spec_escape(text@),
{
    regex::escape(text)
}

/// The pattern for a wild card: each `*` stands for any text.
pub open spec fn spec_wildcard_regex(wildcard: Seq<char>) -> Seq<char> {
    spec_replace(wildcard, seq!['*'], seq!['.', '*'])
}

/// Whether `text` matches a wild card somewhere. A wild card whose
/// pattern does not compile matches nothing.
pub open spec fn spec_wildcard_match(wildcard: Seq<char>, text: Seq<char>) -> bool {
    spec_is_match(spec_wildcard_regex(wildcard), text)
}

/// The pattern for a glob: a dot stands for itself, `*` for any text, `?`
/// for any one character, and the whole text has to match.
pub open spec fn spec_glob_regex(glob: Seq<char>) -> Seq<char> {
    let dots = spec_replace(glob, seq!['.'], seq!['\\', '.']);
    let stars = spec_replace(dots, seq!['*'], seq!['.', '*']);
    let marks = spec_replace(stars, seq!['?'], seq!['.']);
    seq!['^'] + marks + seq!['$']
}

/// Whether the whole of `text` matches a glob. A glob whose pattern does
/// not compile matches nothing.
pub open spec fn spec_glob_match(glob: Seq<char>, text: Seq<char>) -> bool {
    spec_is_match(spec_glob_regex(glob), text)
}

fn one(c: char) -> (v: Vec<char>)
    ensures
        v@ == seq![c],
{
    let mut v: Vec<char> = Vec::new();
    v.push(c);
    assert(v@ =~= seq![c]);
    v
}

fn two(a: char, b: char) -> (v: Vec<char>)
    ensures
        v@ == seq![a, b],
{
    let mut v: Vec<char> = Vec::new();
    v.push(a);
    v.push(b);
    assert(v@ =~= seq![a, b]);
    v
}

/// Writes a wild card as a pattern.
pub fn wildcard_regex(wildcard: &[char]) -> (pattern: Vec<char>)
    ensures
        pattern@ == spec_wildcard_regex(wildcard@),
{
    let star = one('*');
    let any = two('.', '*');
    replace_all(wildcard, star.as_slice(), any.as_slice())
}

/// Whether `text` matches a wild card somewhere.
pub fn wildcard_match(wildcard: &[char], text: &[char]) -> (found: bool)
    ensures
        found == spec_wildcard_match(wildcard@, text@),
{
    let pattern = string_of(wildcard_regex(wildcard).as_slice());
    let subject = string_of(text);
    is_match(pattern.as_str(), subject.as_str())
}

/// Writes a glob as a pattern.
pub fn glob_regex(glob: &[char]) -> (pattern: Vec<char>)
    ensures
        pattern@ == spec_glob_regex(glob@),
{
    let dots = replace_all(glob, one('.').as_slice(), two('\\', '.').as_slice());
    let stars = replace_all(dots.as_slice(), one('*').as_slice(), two('.', '*').as_slice());
    let marks = replace_all(stars.as_slice(), one('?').as_slice(), one('.').as_slice());
    let mut pattern = one('^');
    append_chars(&mut pattern, marks.as_slice());
    pattern.push('$');
    assert(pattern@ =~= seq!['^'] + marks@ + seq!['$']);
    pattern
}

/// Whether the whole of `text` matches a glob.
pub fn glob_match(glob: &str, text: &str) -> (found: bool)
    ensures
        found == spec_glob_match(glob@, text@),
{
    let g = chars_of(glob);
    let pattern = string_of(glob_regex(g.as_slice()).as_slice());
    is_match(pattern.as_str(), text)
}

} // verus!
