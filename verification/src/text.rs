//! Character-sequence utilities.
//!
//! Strings are handled as vectors of `char`; every contract is stated over
//! `Seq<char>`, the view of `str` and `String`.

use vstd::prelude::*;

verus! {

/// `needle` occurs in `hay` starting at index `at`.
pub open spec fn occurs_at(hay: Seq<char>, needle: Seq<char>, at: int) -> bool {
    &&& 0 <= at
    &&& at + needle.len() <= hay.len()
    &&& hay.subrange(at, at + needle.len()) == needle
}

/// `needle` is a contiguous part of `hay`.
pub open spec fn spec_contains(hay: Seq<char>, needle: Seq<char>) -> bool {
    exists|at: int| occurs_at(hay, needle, at)
}

/// `at` is the first index, not below `from`, at which `needle` occurs in `hay`.
pub open spec fn first_occurrence(hay: Seq<char>, needle: Seq<char>, from: int, at: int) -> bool {
    &&& from <= at
    &&& occurs_at(hay, needle, at)
    &&& forall|k: int| from <= k < at ==> !occurs_at(hay, needle, k)
}

/// The characters of a string slice, in order.
pub fn chars_of(s: &str) -> (v: Vec<char>)
    ensures
        v@ == s@,
{
    let mut v: Vec<char> = Vec::new();
    for c in it: s.chars()
        invariant
            it.seq() == s@,
            v@ == s@.take(it.index() as int),
    {
        v.push(c);
    }
    v
}

/// Collects characters into a `String` with `String::from_iter`, which
/// yields the string made of exactly those characters in order.
#[verifier::external_body]
pub(crate) fn string_of(chars: &[char]) -> (s: String)
    ensures
        s@ == chars@,
{
    chars.iter().collect()
}

/// Whether `needle` occurs in `hay` at index `at`.
pub fn matches_at(hay: &[char], needle: &[char], at: usize) -> (found: bool)
    ensures
        found == occurs_at(hay@, needle@, at as int),
{
    if at > hay.len() || needle.len() > hay.len() - at {
        return false;
    }
    let mut k: usize = 0;
    while k < needle.len()
        invariant
            at + needle.len() <= hay.len(),
            k <= needle.len(),
            forall|j: int| 0 <= j < k ==> hay@[at + j] == needle@[j],
        decreases needle.len() - k,
    {
        if hay[at + k] != needle[k] {
            assert(hay@.subrange(at as int, at + needle.len())[k as int] == hay@[at + k]);
            return false;
        }
        k += 1;
    }
    assert(hay@.subrange(at as int, at + needle.len()) =~= needle@);
    true
}

/// The first index at or after `from` where `needle` occurs in `hay`.
pub fn find_from(hay: &[char], needle: &[char], from: usize) -> (found: Option<usize>)
    ensures
        match found {
            Some(at) => first_occurrence(hay@, needle@, from as int, at as int),
            None => forall|k: int| from <= k ==> !occurs_at(hay@, needle@, k),
        },
{
    if from > hay.len() || needle.len() > hay.len() - from {
        return None;
    }
    let last: usize = hay.len() - needle.len();
    let mut at: usize = from;
    loop
        invariant
            last == hay.len() - needle.len(),
            from <= at <= last,
            forall|k: int| from <= k < at ==> !occurs_at(hay@, needle@, k),
        decreases last - at,
    {
        if matches_at(hay, needle, at) {
            return Some(at);
        }
        if at == last {
            return None;
        }
        at += 1;
    }
}

/// Whether `needle` is a contiguous part of `hay`.
pub fn contains(hay: &[char], needle: &[char]) -> (found: bool)
    ensures
        found == spec_contains(hay@, needle@),
{
    find_from(hay, needle, 0).is_some()
}

/// Whether `needle`, given as a string slice, is a contiguous part of `hay`.
pub fn contains_str(hay: &[char], needle: &str) -> (found: bool)
    ensures
        found == spec_contains(hay@, needle@),
{
    let n = chars_of(needle);
    contains(hay, n.as_slice())
}

/// Whether two character sequences are equal.
pub fn same_chars(a: &[char], b: &[char]) -> (same: bool)
    ensures
        same == (a@ == b@),
{
    if a.len() != b.len() {
        return false;
    }
    let r = matches_at(a, b, 0);
    assert(a@.subrange(0, a@.len() as int) =~= a@);
    r
}

/// Whether a string slice holds exactly the given characters.
pub fn is_str(a: &[char], literal: &str) -> (same: bool)
    ensures
        same == (a@ == literal@),
{
    let l = chars_of(literal);
    same_chars(a, l.as_slice())
}

/// What `str::to_lowercase` returns for a string with the given characters.
pub uninterp spec fn lowercase_of(s: Seq<char>) -> Seq<char>;

/// Lowercases with `str::to_lowercase`. The result is determined by the
/// characters of the input alone; which characters it holds is left to the
/// standard library's Unicode tables.
#[verifier::external_body]
pub(crate) fn to_lowercase(s: &str) -> (lower: String)
    ensures
        lower@ == lowercase_of(s@),
{
    s.to_lowercase()
}

/// The lowercase form of a character sequence.
pub fn lowercase_chars(s: &[char]) -> (lower: Vec<char>)
    ensures
        lower@ == lowercase_of(s@),
{
    let text = string_of(s);
    let lower = to_lowercase(text.as_str());
    chars_of(lower.as_str())
}

/// Appends `more` to `out`.
pub fn append_chars(out: &mut Vec<char>, more: &[char])
    ensures
        final(out)@ == old(out)@ + more@,
{
    let ghost before = out@;
    let mut i: usize = 0;
    while i < more.len()
        invariant
            i <= more.len(),
            out@ =~= before + more@.take(i as int),
        decreases more.len() - i,
    {
        out.push(more[i]);
        i += 1;
    }
    assert(more@.take(more@.len() as int) =~= more@);
}

/// Appends the characters of `more` to `out`.
pub fn append_str(out: &mut Vec<char>, more: &str)
    ensures
        final(out)@ == old(out)@ + more@,
{
    let m = chars_of(more);
    append_chars(out, m.as_slice());
}

/// A copy of a character sequence.
pub fn copy_chars(s: &[char]) -> (out: Vec<char>)
    ensures
        out@ == s@,
{
    let mut out: Vec<char> = Vec::new();
    append_chars(&mut out, s);
    assert(Seq::<char>::empty() + s@ =~= s@);
    out
}

/// The part of `s` from index `from` up to, not including, `to`.
pub fn slice_chars(s: &[char], from: usize, to: usize) -> (out: Vec<char>)
    requires
        from <= to <= s.len(),
    ensures
        out@ == s@.subrange(from as int, to as int),
{
    let mut out: Vec<char> = Vec::new();
    let mut i: usize = from;
    while i < to
        invariant
            from <= i <= to <= s.len(),
            out@ =~= s@.subrange(from as int, i as int),
        decreases to - i,
    {
        out.push(s[i]);
        i += 1;
    }
    out
}

/// `s` with `to` placed after each of its characters from index `i` on.
pub open spec fn interleaved(s: Seq<char>, to: Seq<char>, i: int) -> Seq<char>
    decreases s.len() - i,
{
    if i < 0 || i >= s.len() {
        Seq::empty()
    } else {
        seq![s[i]] + to + interleaved(s, to, i + 1)
    }
}

/// The part of `s` from index `i` on, with every occurrence of the
/// non-empty `from` replaced by `to`, scanning left to right without overlap.
pub open spec fn replaced_from(s: Seq<char>, from: Seq<char>, to: Seq<char>, i: int) -> Seq<char>
    decreases s.len() - i,
{
    if i < 0 || i >= s.len() || from.len() == 0 {
        Seq::empty()
    } else if occurs_at(s, from, i) {
        to + replaced_from(s, from, to, i + from.len())
    } else {
        seq![s[i]] + replaced_from(s, from, to, i + 1)
    }
}

/// `s` with every non-overlapping occurrence of `from`, found left to right,
/// replaced by `to`. An empty `from` occurs before every character and at
/// the end.
pub open spec fn spec_replace(s: Seq<char>, from: Seq<char>, to: Seq<char>) -> Seq<char> {
    if from.len() == 0 {
        to + interleaved(s, to, 0)
    } else {
        replaced_from(s, from, to, 0)
    }
}

/// Replaces every occurrence of `from` in `s` by `to`.
pub fn replace_all(s: &[char], from: &[char], to: &[char]) -> (out: Vec<char>)
    ensures
        out@ == spec_replace(s@, from@, to@),
{
    let mut out: Vec<char> = Vec::new();
    let mut i: usize = 0;
    if from.len() == 0 {
        append_chars(&mut out, to);
        while i < s.len()
            invariant
                i <= s.len(),
                out@ + interleaved(s@, to@, i as int) =~= to@ + interleaved(s@, to@, 0),
            decreases s.len() - i,
        {
            let ghost before = out@;
            out.push(s[i]);
            append_chars(&mut out, to);
            assert(out@ =~= before + (seq![s@[i as int]] + to@));
            i += 1;
        }
        return out;
    }
    while i < s.len()
        invariant
            i <= s.len(),
            from.len() > 0,
            out@ + replaced_from(s@, from@, to@, i as int) =~= replaced_from(s@, from@, to@, 0),
        decreases s.len() - i,
    {
        let ghost before = out@;
        if matches_at(s, from, i) {
            append_chars(&mut out, to);
            i += from.len();
        } else {
            out.push(s[i]);
            assert(out@ =~= before + seq![s@[i as int]]);
            i += 1;
        }
    }
    out
}

/// The views of the vectors in `parts`.
pub open spec fn nested(parts: Seq<Vec<char>>) -> Seq<Seq<char>> {
    Seq::new(parts.len(), |i: int| parts[i]@)
}

/// `line` without one trailing carriage return.
pub open spec fn strip_cr(line: Seq<char>) -> Seq<char> {
    if line.len() > 0 && line.last() == '\r' {
        line.drop_last()
    } else {
        line
    }
}

/// The lines of `s` from index `i` on, where the line being read began at
/// `start`.
pub open spec fn lines_from(s: Seq<char>, start: int, i: int) -> Seq<Seq<char>>
    decreases s.len() - i,
{
    if i < 0 || i >= s.len() {
        if 0 <= start < s.len() {
            seq![s.subrange(start, s.len() as int)]
        } else {
            Seq::empty()
        }
    } else if s[i] == '\n' {
        seq![strip_cr(s.subrange(start, i))] + lines_from(s, i + 1, i + 1)
    } else {
        lines_from(s, start, i + 1)
    }
}

/// The lines of `s`: the pieces between line feeds, each without the
/// carriage return that stood before its line feed; a last piece without a
/// line feed counts if it is not empty.
pub open spec fn spec_lines(s: Seq<char>) -> Seq<Seq<char>> {
    lines_from(s, 0, 0)
}

/// Splits `s` into its lines.
pub fn split_lines(s: &[char]) -> (lines: Vec<Vec<char>>)
    ensures
        nested(lines@) == spec_lines(s@),
{
    let mut lines: Vec<Vec<char>> = Vec::new();
    let mut start: usize = 0;
    let mut i: usize = 0;
    while i < s.len()
        invariant
            start <= i <= s.len(),
            nested(lines@) + lines_from(s@, start as int, i as int) =~= spec_lines(s@),
        decreases s.len() - i,
    {
        if s[i] == '\n' {
            let end: usize = if i > start && s[i - 1] == '\r' {
                i - 1
            } else {
                i
            };
            let line = slice_chars(s, start, end);
            assert(line@ =~= strip_cr(s@.subrange(start as int, i as int)));
            let ghost before = lines@;
            lines.push(line);
            assert(nested(lines@) =~= nested(before) + seq![line@]);
            start = i + 1;
        }
        i += 1;
    }
    if start < s.len() {
        let line = slice_chars(s, start, s.len());
        let ghost before = lines@;
        lines.push(line);
        assert(nested(lines@) =~= nested(before) + seq![line@]);
    }
    lines
}

/// The parts joined with `sep` between neighbours.
pub open spec fn spec_join(parts: Seq<Seq<char>>, sep: Seq<char>) -> Seq<char>
    decreases parts.len(),
{
    if parts.len() == 0 {
        Seq::empty()
    } else if parts.len() == 1 {
        parts[0]
    } else {
        spec_join(parts.drop_last(), sep) + sep + parts.last()
    }
}

/// Joins the parts with `sep` between neighbours.
pub fn join(parts: &Vec<Vec<char>>, sep: &[char]) -> (out: Vec<char>)
    ensures
        out@ == spec_join(nested(parts@), sep@),
{
    let mut out: Vec<char> = Vec::new();
    let mut i: usize = 0;
    while i < parts.len()
        invariant
            i <= parts.len(),
            out@ == spec_join(nested(parts@).take(i as int), sep@),
        decreases parts.len() - i,
    {
        let ghost done = nested(parts@).take(i as int);
        let ghost next = nested(parts@).take(i + 1);
        assert(next.drop_last() =~= done);
        assert(next.last() == parts@[i as int]@);
        if i > 0 {
            append_chars(&mut out, sep);
        } else {
            assert(out@ + parts@[i as int]@ =~= parts@[i as int]@);
        }
        append_chars(&mut out, parts[i].as_slice());
        i += 1;
    }
    assert(nested(parts@).take(parts@.len() as int) =~= nested(parts@));
    out
}

/// Code points of the Unicode general category Cc (control codes).
pub open spec fn spec_is_control(c: char) -> bool {
    (c as u32) <= 0x1F || (0x7F <= (c as u32) && (c as u32) <= 0x9F)
}

/// Whether `c` is a control code.
pub fn is_control(c: char) -> (r: bool)
    ensures
        r == spec_is_control(c),
{
    let n: u32 = c as u32;
    n <= 0x1F || (0x7F <= n && n <= 0x9F)
}

/// Code points with the Unicode property White_Space.
pub open spec fn spec_is_whitespace(c: char) -> bool {
    let n = c as u32;
    ||| (0x09 <= n && n <= 0x0D)
    ||| n == 0x20
    ||| n == 0x85
    ||| n == 0xA0
    ||| n == 0x1680
    ||| (0x2000 <= n && n <= 0x200A)
    ||| n == 0x2028
    ||| n == 0x2029
    ||| n == 0x202F
    ||| n == 0x205F
    ||| n == 0x3000
}

/// Whether `c` is white space.
pub fn is_whitespace(c: char) -> (r: bool)
    ensures
        r == spec_is_whitespace(c),
{
    let n: u32 = c as u32;
    (0x09 <= n && n <= 0x0D) || n == 0x20 || n == 0x85 || n == 0xA0 || n == 0x1680 || (0x2000 <= n
        && n <= 0x200A) || n == 0x2028 || n == 0x2029 || n == 0x202F || n == 0x205F || n == 0x3000
}

/// A set of characters that can be trimmed from the ends of a text.
#[derive(Clone, Copy, Debug, PartialEq, Eq)]
pub enum CharClass {
    /// White space.
    Whitespace,
    /// The double and the single quotation mark.
    Quote,
    /// The path separator `/`.
    Separator,
}

impl CharClass {
    /// Whether `c` belongs to the class.
    pub open spec fn has(self, c: char) -> bool {
        match self {
            CharClass::Whitespace => spec_is_whitespace(c),
            CharClass::Quote => c == '"' || c == '\'',
            CharClass::Separator => c == '/',
        }
    }

    /// Whether `c` belongs to the class.
    pub fn holds(self, c: char) -> (r: bool)
        ensures
            r == self.has(c),
    {
        match self {
            CharClass::Whitespace => is_whitespace(c),
            CharClass::Quote => c == '"' || c == '\'',
            CharClass::Separator => c == '/',
        }
    }
}

/// `s` without its leading characters of the class.
pub open spec fn spec_trim_start(s: Seq<char>, class: CharClass) -> Seq<char>
    decreases s.len(),
{
    if s.len() > 0 && class.has(s[0]) {
        spec_trim_start(s.drop_first(), class)
    } else {
        s
    }
}

/// `s` without its trailing characters of the class.
pub open spec fn spec_trim_end(s: Seq<char>, class: CharClass) -> Seq<char>
    decreases s.len(),
{
    if s.len() > 0 && class.has(s.last()) {
        spec_trim_end(s.drop_last(), class)
    } else {
        s
    }
}

/// `s` without its leading and trailing characters of the class.
pub open spec fn spec_trim(s: Seq<char>, class: CharClass) -> Seq<char> {
    spec_trim_end(spec_trim_start(s, class), class)
}

/// Removes the characters of the class from both ends of `s`.
pub fn trim(s: &[char], class: CharClass) -> (out: Vec<char>)
    ensures
        out@ == spec_trim(s@, class),
{
    let mut a: usize = 0;
    assert(s@.skip(0) =~= s@);
    while a < s.len() && class.holds(s[a])
        invariant
            a <= s.len(),
            spec_trim_start(s@, class) == spec_trim_start(s@.skip(a as int), class),
        decreases s.len() - a,
    {
        assert(s@.skip(a as int).drop_first() =~= s@.skip(a + 1));
        a += 1;
    }
    assert(s@.skip(s@.len() as int).len() == 0);
    assert(spec_trim_start(s@, class) == s@.skip(a as int));
    let mut b: usize = s.len();
    while b > a && class.holds(s[b - 1])
        invariant
            a <= b <= s.len(),
            spec_trim(s@, class) == spec_trim_end(s@.subrange(a as int, b as int), class),
        decreases b,
    {
        assert(s@.subrange(a as int, b as int).drop_last() =~= s@.subrange(a as int, b - 1));
        b -= 1;
    }
    slice_chars(s, a, b)
}

/// The pieces of `s` from index `i` on, where the piece being read began
/// at `start`.
pub open spec fn pieces_from(s: Seq<char>, class: CharClass, start: int, i: int) -> Seq<Seq<char>>
    decreases s.len() - i,
{
    let piece = if 0 <= start < i && i <= s.len() {
        seq![s.subrange(start, i)]
    } else {
        Seq::empty()
    };
    if i < 0 || i >= s.len() {
        piece
    } else if class.has(s[i]) {
        piece + pieces_from(s, class, i + 1, i + 1)
    } else {
        pieces_from(s, class, start, i + 1)
    }
}

/// The maximal runs of characters of `s` that are not of the class, in
/// order. No piece is empty.
pub open spec fn spec_pieces(s: Seq<char>, class: CharClass) -> Seq<Seq<char>> {
    pieces_from(s, class, 0, 0)
}

/// The words of `s`: its pieces between white space.
pub open spec fn spec_words(s: Seq<char>) -> Seq<Seq<char>> {
    spec_pieces(s, CharClass::Whitespace)
}

/// Splits `s` at the characters of the class, leaving out empty pieces.
pub fn split(s: &[char], class: CharClass) -> (pieces: Vec<Vec<char>>)
    ensures
        nested(pieces@) == spec_pieces(s@, class),
{
    let mut pieces: Vec<Vec<char>> = Vec::new();
    let mut start: usize = 0;
    let mut i: usize = 0;
    while i < s.len()
        invariant
            start <= i <= s.len(),
            nested(pieces@) + pieces_from(s@, class, start as int, i as int) =~= spec_pieces(
                s@,
                class,
            ),
        decreases s.len() - i,
    {
        if class.holds(s[i]) {
            if start < i {
                let piece = slice_chars(s, start, i);
                let ghost before = pieces@;
                pieces.push(piece);
                assert(nested(pieces@) =~= nested(before) + seq![piece@]);
            }
            start = i + 1;
        }
        i += 1;
    }
    if start < s.len() {
        let piece = slice_chars(s, start, s.len());
        let ghost before = pieces@;
        pieces.push(piece);
        assert(nested(pieces@) =~= nested(before) + seq![piece@]);
    }
    pieces
}

/// Splits `s` at white space into its words.
pub fn split_words(s: &[char]) -> (words: Vec<Vec<char>>)
    ensures
        nested(words@) == spec_words(s@),
{
    split(s, CharClass::Whitespace)
}

/// Whether two string slices hold the same characters.
pub fn str_eq(a: &str, b: &str) -> (same: bool)
    ensures
        same == (a@ == b@),
{
    let x = chars_of(a);
    let y = chars_of(b);
    same_chars(x.as_slice(), y.as_slice())
}

/// The index of the first occurrence of the character `c` at or after
/// `from`.
pub fn find_char(s: &[char], c: char, from: usize) -> (found: Option<usize>)
    ensures
        match found {
            Some(at) => from <= at < s.len() && s@[at as int] == c && forall|k: int|
                from <= k < at ==> s@[k] != c,
            None => forall|k: int| from <= k < s.len() ==> s@[k] != c,
        },
{
    let mut i: usize = from;
    while i < s.len()
        invariant
            from <= i,
            forall|k: int| from <= k < i && k < s.len() ==> s@[k] != c,
        decreases s.len() - i,
    {
        if s[i] == c {
            return Some(i);
        }
        i += 1;
    }
    None
}

/// The index of the last occurrence of the character `c`.
pub fn find_last_char(s: &[char], c: char) -> (found: Option<usize>)
    ensures
        match found {
            Some(at) => at < s.len() && s@[at as int] == c && forall|k: int|
                at < k < s.len() ==> s@[k] != c,
            None => forall|k: int| 0 <= k < s.len() ==> s@[k] != c,
        },
{
    let mut i: usize = s.len();
    while i > 0
        invariant
            i <= s.len(),
            forall|k: int| i <= k < s.len() ==> s@[k] != c,
        decreases i,
    {
        i -= 1;
        if s[i] == c {
            return Some(i);
        }
    }
    None
}

/// The character of a decimal digit.
pub open spec fn digit_char(d: int) -> char {
    if d == 0 {
        '0'
    } else if d == 1 {
        '1'
    } else if d == 2 {
        '2'
    } else if d == 3 {
        '3'
    } else if d == 4 {
        '4'
    } else if d == 5 {
        '5'
    } else if d == 6 {
        '6'
    } else if d == 7 {
        '7'
    } else if d == 8 {
        '8'
    } else {
        '9'
    }
}

/// The decimal numeral of `n`, without leading zeros.
pub open spec fn spec_decimal(n: nat) -> Seq<char>
    decreases n,
{
    if n < 10 {
        seq![digit_char(n as int)]
    } else {
        spec_decimal(n / 10).push(digit_char((n % 10) as int))
    }
}

fn digit(d: u128) -> (c: char)
    requires
        d < 10,
    ensures
        c == digit_char(d as int),
{
    if d == 0 {
        '0'
    } else if d == 1 {
        '1'
    } else if d == 2 {
        '2'
    } else if d == 3 {
        '3'
    } else if d == 4 {
        '4'
    } else if d == 5 {
        '5'
    } else if d == 6 {
        '6'
    } else if d == 7 {
        '7'
    } else if d == 8 {
        '8'
    } else {
        '9'
    }
}

/// Writes `n` as a decimal numeral.
pub fn decimal(n: u128) -> (out: Vec<char>)
    ensures
        out@ == spec_decimal(n as nat),
    decreases n,
{
    if n < 10 {
        let mut out: Vec<char> = Vec::new();
        out.push(digit(n));
        assert(out@ =~= seq![digit_char(n as int)]);
        out
    } else {
        let mut out = decimal(n / 10);
        out.push(digit(n % 10));
        out
    }
}

/// The decimal numeral of `n` as a string.
pub fn decimal_string(n: u128) -> (out: String)
    ensures
        out@ == spec_decimal(n as nat),
{
    string_of(decimal(n).as_slice())
}

/// The number of bytes that the UTF-8 form of a text takes.
pub open spec fn byte_len(text: Seq<char>) -> nat {
    vstd::utf8::encode_utf8(text).len()
}

/// The number of bytes of a string slice.
pub fn byte_length(text: &str) -> (n: usize)
    ensures
        n == byte_len(text@),
{
    text.as_bytes().len()
}

/// Two texts, one after the other.
pub fn concat2(a: &str, b: &str) -> (out: String)
    ensures
        out@ == a@ + b@,
{
    let mut v = chars_of(a);
    append_str(&mut v, b);
    string_of(v.as_slice())
}

/// Three texts, one after the other.
pub fn concat3(a: &str, b: &str, c: &str) -> (out: String)
    ensures
        out@ == a@ + b@ + c@,
{
    let mut v = chars_of(a);
    append_str(&mut v, b);
    append_str(&mut v, c);
    string_of(v.as_slice())
}

/// Four texts, one after the other.
pub fn concat4(a: &str, b: &str, c: &str, d: &str) -> (out: String)
    ensures
        out@ == a@ + b@ + c@ + d@,
{
    let mut v = chars_of(a);
    append_str(&mut v, b);
    append_str(&mut v, c);
    append_str(&mut v, d);
    string_of(v.as_slice())
}

/// Five texts, one after the other.
pub fn concat5(a: &str, b: &str, c: &str, d: &str, e: &str) -> (out: String)
    ensures
        out@ == a@ + b@ + c@ + d@ + e@,
{
    let mut v = chars_of(a);
    append_str(&mut v, b);
    append_str(&mut v, c);
    append_str(&mut v, d);
    append_str(&mut v, e);
    string_of(v.as_slice())
}

/// Seven texts, one after the other.
pub fn concat7(a: &str, b: &str, c: &str, d: &str, e: &str, f: &str, g: &str) -> (out: String)
    ensures
        out@ == a@ + b@ + c@ + d@ + e@ + f@ + g@,
{
    let mut v = chars_of(a);
    append_str(&mut v, b);
    append_str(&mut v, c);
    append_str(&mut v, d);
    append_str(&mut v, e);
    append_str(&mut v, f);
    append_str(&mut v, g);
    string_of(v.as_slice())
}

/// The views of a list of string slices.
pub open spec fn strs_view(list: Seq<&'static str>) -> Seq<Seq<char>> {
    Seq::new(list.len(), |i: int| list[i]@)
}

/// Adds a text at the end of a list.
pub fn add_str(list: &mut Vec<&'static str>, s: &'static str)
    ensures
        strs_view(final(list)@) == strs_view(old(list)@).push(s@),
{
    let ghost before = list@;
    list.push(s);
    assert(strs_view(list@) =~= strs_view(before).push(s@));
}

/// An empty list of texts.
pub fn no_strs() -> (list: Vec<&'static str>)
    ensures
        strs_view(list@) == Seq::<Seq<char>>::empty(),
{
    let list: Vec<&'static str> = Vec::new();
    assert(strs_view(list@) =~= Seq::<Seq<char>>::empty());
    list
}

/// Some text of the list is a part of `hay`.
pub open spec fn spec_contains_any(hay: Seq<char>, list: Seq<Seq<char>>) -> bool {
    exists|i: int| 0 <= i < list.len() && spec_contains(hay, #[trigger] list[i])
}

/// `at` is the index of the first text of the list that is a part of `hay`.
pub open spec fn first_contained(hay: Seq<char>, list: Seq<Seq<char>>, at: int) -> bool {
    &&& 0 <= at < list.len()
    &&& spec_contains(hay, list[at])
    &&& forall|j: int| 0 <= j < at ==> !spec_contains(hay, #[trigger] list[j])
}

/// The index of the first text of the list that is a part of `hay`.
pub fn first_match(hay: &[char], list: &Vec<&'static str>) -> (found: Option<usize>)
    ensures
        match found {
            Some(at) => first_contained(hay@, strs_view(list@), at as int),
            None => !spec_contains_any(hay@, strs_view(list@)),
        },
{
    let mut i: usize = 0;
    while i < list.len()
        invariant
            i <= list.len(),
            forall|j: int| 0 <= j < i ==> !spec_contains(hay@, #[trigger] strs_view(list@)[j]),
        decreases list.len() - i,
    {
        if contains_str(hay, list[i]) {
            assert(strs_view(list@)[i as int] == list@[i as int]@);
            return Some(i);
        }
        assert(strs_view(list@)[i as int] == list@[i as int]@);
        i += 1;
    }
    None
}

/// Whether `text` is one of the texts of the list.
pub fn is_listed(text: &[char], list: &Vec<&'static str>) -> (found: bool)
    ensures
        found == strs_view(list@).contains(text@),
{
    let mut i: usize = 0;
    while i < list.len()
        invariant
            i <= list.len(),
            forall|j: int| 0 <= j < i ==> #[trigger] strs_view(list@)[j] != text@,
        decreases list.len() - i,
    {
        if is_str(text, list[i]) {
            assert(strs_view(list@)[i as int] == text@);
            return true;
        }
        assert(strs_view(list@)[i as int] == list@[i as int]@);
        i += 1;
    }
    false
}

} // verus!
