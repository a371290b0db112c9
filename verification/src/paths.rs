//! Paths as the safety rules read them: texts with `/` between components.
//!
//! A path is taken apart into components, each a text of its own: the root
//! is written `/`, the current directory `.`, the parent directory `..`, and
//! any other component is a name. No name holds a `/`, so the three special
//! components cannot be mistaken for names.

use crate::text::{
    append_chars, copy_chars, find_last_char, join, nested, same_chars, slice_chars, spec_join,
    spec_pieces, split, CharClass,
};
use vstd::prelude::*;

verus! {

/// The root component.
pub open spec fn root_name() -> Seq<char> {
    seq!['/']
}

/// The component for the current directory.
pub open spec fn current_name() -> Seq<char> {
    seq!['.']
}

/// The component for the parent directory.
pub open spec fn parent_name() -> Seq<char> {
    seq!['.', '.']
}

/// A path is absolute when it begins with the separator.
pub open spec fn spec_is_absolute(path: Seq<char>) -> bool {
    path.len() > 0 && path[0] == '/'
}

/// The pieces other than `.`, in order.
pub open spec fn drop_current(pieces: Seq<Seq<char>>) -> Seq<Seq<char>>
    decreases pieces.len(),
{
    if pieces.len() == 0 {
        Seq::empty()
    } else if pieces.last() == current_name() {
        drop_current(pieces.drop_last())
    } else {
        drop_current(pieces.drop_last()).push(pieces.last())
    }
}

/// What stands before the pieces of a path: the root of an absolute path,
/// or the `.` that a relative path begins with.
pub open spec fn leading_component(path: Seq<char>) -> Seq<Seq<char>> {
    let pieces = spec_pieces(path, CharClass::Separator);
    if spec_is_absolute(path) {
        seq![root_name()]
    } else if pieces.len() > 0 && pieces[0] == current_name() {
        seq![current_name()]
    } else {
        Seq::empty()
    }
}

/// The components of a path: the root if it is absolute, then its
/// non-empty pieces between separators. A piece `.` counts only at the very
/// beginning of a relative path.
pub open spec fn spec_components(path: Seq<char>) -> Seq<Seq<char>> {
    leading_component(path) + drop_current(spec_pieces(path, CharClass::Separator))
}

/// `base` with `rel` appended as a path: `rel` alone if it is absolute,
/// else `base`, a separator unless `base` is empty or ends in one, and `rel`.
pub open spec fn spec_join_path(base: Seq<char>, rel: Seq<char>) -> Seq<char> {
    if spec_is_absolute(rel) {
        rel
    } else if base.len() == 0 || base.last() == '/' {
        base + rel
    } else {
        base + seq!['/'] + rel
    }
}

/// Whether a stack has nothing above the root: it is empty, or holds the
/// root alone.
pub open spec fn at_root(stack: Seq<Seq<char>>) -> bool {
    stack.len() == 0 || (stack.len() == 1 && stack[0] == root_name())
}

/// Resolves the components from index `i` on, on top of `stack`: a name is
/// pushed, `..` pops a name (and fails where the stack has nothing above
/// the root), `.` is skipped, and the root starts the stack anew.
pub open spec fn resolve_from(comps: Seq<Seq<char>>, i: int, stack: Seq<Seq<char>>) -> Option<
    Seq<Seq<char>>,
>
    decreases comps.len() - i,
{
    if i < 0 || i >= comps.len() {
        Some(stack)
    } else if comps[i] == parent_name() {
        if at_root(stack) {
            None
        } else {
            resolve_from(comps, i + 1, stack.drop_last())
        }
    } else if comps[i] == current_name() {
        resolve_from(comps, i + 1, stack)
    } else if comps[i] == root_name() {
        resolve_from(comps, i + 1, seq![root_name()])
    } else {
        resolve_from(comps, i + 1, stack.push(comps[i]))
    }
}

/// Resolving never takes the root away: what is resolved on top of a stack
/// that begins with the root begins with the root.
pub proof fn lemma_resolve_keeps_root(comps: Seq<Seq<char>>, i: int, stack: Seq<Seq<char>>)
    requires
        0 <= i,
        stack.len() > 0,
        stack[0] == root_name(),
    ensures
        resolve_from(comps, i, stack) matches Some(resolved) ==> resolved.len() > 0
            && resolved[0] == root_name(),
    decreases comps.len() - i,
{
    if i < comps.len() {
        if comps[i] == parent_name() {
            if !at_root(stack) {
                lemma_resolve_keeps_root(comps, i + 1, stack.drop_last());
            }
        } else if comps[i] == current_name() {
            lemma_resolve_keeps_root(comps, i + 1, stack);
        } else if comps[i] == root_name() {
            lemma_resolve_keeps_root(comps, i + 1, seq![root_name()]);
        } else {
            lemma_resolve_keeps_root(comps, i + 1, stack.push(comps[i]));
        }
    }
}

/// The path with `.` and `..` resolved, as a stack of components; `None`
/// where a `..` would climb out of the root, or out of where a relative
/// path begins.
pub open spec fn spec_normalize(path: Seq<char>) -> Option<Seq<Seq<char>>> {
    resolve_from(spec_components(path), 0, Seq::empty())
}

/// The text of a stack of components: the root, if it is first, directly
/// followed by the rest with separators between them.
pub open spec fn spec_render(stack: Seq<Seq<char>>) -> Seq<char> {
    if stack.len() > 0 && stack[0] == root_name() {
        root_name() + spec_join(stack.skip(1), seq!['/'])
    } else {
        spec_join(stack, seq!['/'])
    }
}

/// `path` begins with all the components of `base`, in order.
pub open spec fn spec_has_prefix(path: Seq<Seq<char>>, base: Seq<Seq<char>>) -> bool {
    base.len() <= path.len() && path.take(base.len() as int) == base
}

/// The index of the last `c` in `s`, or -1.
pub open spec fn last_index_of(s: Seq<char>, c: char) -> int
    decreases s.len(),
{
    if s.len() == 0 {
        -1
    } else if s.last() == c {
        s.len() - 1
    } else {
        last_index_of(s.drop_last(), c)
    }
}

/// Whether a component is a name, not the root, `.` or `..`.
pub open spec fn spec_is_name(component: Seq<char>) -> bool {
    component != root_name() && component != current_name() && component != parent_name()
}

/// The last component of a path, where it is a name.
pub open spec fn spec_file_name(path: Seq<char>) -> Option<Seq<char>> {
    let comps = spec_components(path);
    if comps.len() > 0 && spec_is_name(comps.last()) {
        Some(comps.last())
    } else {
        None
    }
}

/// What follows the last dot of a file name, where that dot is not its
/// first character.
pub open spec fn extension_of_name(name: Seq<char>) -> Option<Seq<char>> {
    let dot = last_index_of(name, '.');
    if dot > 0 {
        Some(name.skip(dot + 1))
    } else {
        None
    }
}

/// The extension of the file name of a path.
pub open spec fn spec_extension(path: Seq<char>) -> Option<Seq<char>> {
    match spec_file_name(path) {
        Some(name) => extension_of_name(name),
        None => None,
    }
}

/// The path without its last component, written with single separators;
/// `None` where the path is empty or is the root alone.
pub open spec fn spec_parent(path: Seq<char>) -> Option<Seq<char>> {
    let comps = spec_components(path);
    if comps.len() > 0 && comps.last() != root_name() {
        Some(spec_render(comps.drop_last()))
    } else {
        None
    }
}

/// Whether a path is absolute.
pub fn is_absolute(path: &[char]) -> (r: bool)
    ensures
        r == spec_is_absolute(path@),
{
    path.len() > 0 && path[0] == '/'
}

/// Whether a component is `.`.
pub fn is_current(component: &[char]) -> (r: bool)
    ensures
        r == (component@ == current_name()),
{
    let r = component.len() == 1 && component[0] == '.';
    assert(r ==> component@ =~= current_name());
    r
}

/// Whether a component is `..`.
pub fn is_parent(component: &[char]) -> (r: bool)
    ensures
        r == (component@ == parent_name()),
{
    let r = component.len() == 2 && component[0] == '.' && component[1] == '.';
    assert(r ==> component@ =~= parent_name());
    r
}

/// Whether a component is the root.
pub fn is_root(component: &[char]) -> (r: bool)
    ensures
        r == (component@ == root_name()),
{
    let r = component.len() == 1 && component[0] == '/';
    assert(r ==> component@ =~= root_name());
    r
}

/// Takes a path apart into its components.
pub fn components(path: &[char]) -> (comps: Vec<Vec<char>>)
    ensures
        nested(comps@) == spec_components(path@),
{
    let pieces = split(path, CharClass::Separator);
    let mut comps: Vec<Vec<char>> = Vec::new();
    if is_absolute(path) {
        let mut root: Vec<char> = Vec::new();
        root.push('/');
        assert(root@ =~= root_name());
        comps.push(root);
    } else if pieces.len() > 0 && is_current(pieces[0].as_slice()) {
        let mut dot: Vec<char> = Vec::new();
        dot.push('.');
        assert(dot@ =~= current_name());
        comps.push(dot);
    }
    assert(nested(comps@) =~= leading_component(path@));
    assert(nested(pieces@).take(0) =~= Seq::<Seq<char>>::empty());
    let mut i: usize = 0;
    while i < pieces.len()
        invariant
            i <= pieces.len(),
            nested(pieces@) == spec_pieces(path@, CharClass::Separator),
            nested(comps@) =~= leading_component(path@) + drop_current(
                nested(pieces@).take(i as int),
            ),
        decreases pieces.len() - i,
    {
        let ghost done = nested(pieces@).take(i as int);
        let ghost next = nested(pieces@).take(i + 1);
        assert(next.drop_last() =~= done);
        assert(next.last() == pieces@[i as int]@);
        if !is_current(pieces[i].as_slice()) {
            let ghost before = comps@;
            comps.push(copy_chars(pieces[i].as_slice()));
            assert(nested(comps@) =~= nested(before).push(pieces@[i as int]@));
        }
        i += 1;
    }
    assert(nested(pieces@).take(pieces@.len() as int) =~= nested(pieces@));
    comps
}

/// Appends `rel` to `base` as a path.
pub fn join_path(base: &[char], rel: &[char]) -> (joined: Vec<char>)
    ensures
        joined@ == spec_join_path(base@, rel@),
{
    if is_absolute(rel) {
        return copy_chars(rel);
    }
    let mut joined = copy_chars(base);
    if base.len() > 0 && base[base.len() - 1] != '/' {
        joined.push('/');
        assert(joined@ =~= base@ + seq!['/']);
    }
    append_chars(&mut joined, rel);
    joined
}

/// Resolves `.` and `..` among components.
pub fn resolve(comps: &Vec<Vec<char>>) -> (stack: Option<Vec<Vec<char>>>)
    ensures
        match stack {
            Some(st) => resolve_from(nested(comps@), 0, Seq::empty()) == Some(nested(st@)),
            None => resolve_from(nested(comps@), 0, Seq::empty()) is None,
        },
{
    let mut stack: Vec<Vec<char>> = Vec::new();
    let mut i: usize = 0;
    assert(nested(stack@) =~= Seq::<Seq<char>>::empty());
    while i < comps.len()
        invariant
            i <= comps.len(),
            resolve_from(nested(comps@), i as int, nested(stack@)) == resolve_from(
                nested(comps@),
                0,
                Seq::empty(),
            ),
        decreases comps.len() - i,
    {
        let ghost before = stack@;
        let c = comps[i].as_slice();
        assert(nested(comps@)[i as int] == c@);
        if is_parent(c) {
            if stack.len() == 0 || (stack.len() == 1 && is_root(stack[0].as_slice())) {
                return None;
            }
            stack.pop();
            assert(nested(stack@) =~= nested(before).drop_last());
        } else if is_current(c) {
        } else if is_root(c) {
            stack = Vec::new();
            stack.push(copy_chars(c));
            assert(nested(stack@) =~= seq![root_name()]);
        } else {
            stack.push(copy_chars(c));
            assert(nested(stack@) =~= nested(before).push(c@));
        }
        i += 1;
    }
    Some(stack)
}

/// Resolves `.` and `..` in a path.
pub fn normalize(path: &[char]) -> (stack: Option<Vec<Vec<char>>>)
    ensures
        match stack {
            Some(st) => spec_normalize(path@) == Some(nested(st@)),
            None => spec_normalize(path@) is None,
        },
{
    let comps = components(path);
    resolve(&comps)
}

/// Writes a stack of components as a path.
pub fn render(stack: &Vec<Vec<char>>) -> (path: Vec<char>)
    ensures
        path@ == spec_render(nested(stack@)),
{
    let mut sep: Vec<char> = Vec::new();
    sep.push('/');
    assert(sep@ =~= seq!['/']);
    if stack.len() > 0 && is_root(stack[0].as_slice()) {
        let mut rest: Vec<Vec<char>> = Vec::new();
        let mut i: usize = 1;
        while i < stack.len()
            invariant
                1 <= i <= stack.len(),
                nested(rest@) =~= nested(stack@).subrange(1, i as int),
            decreases stack.len() - i,
        {
            let ghost before = rest@;
            rest.push(copy_chars(stack[i].as_slice()));
            assert(nested(rest@) =~= nested(before).push(stack@[i as int]@));
            i += 1;
        }
        assert(nested(stack@).subrange(1, stack@.len() as int) =~= nested(stack@).skip(1));
        let mut path = copy_chars(stack[0].as_slice());
        let tail = join(&rest, sep.as_slice());
        append_chars(&mut path, tail.as_slice());
        path
    } else {
        join(stack, sep.as_slice())
    }
}

/// Whether `path` begins with all the components of `base`.
pub fn has_prefix(path: &Vec<Vec<char>>, base: &Vec<Vec<char>>) -> (r: bool)
    ensures
        r == spec_has_prefix(nested(path@), nested(base@)),
{
    if base.len() > path.len() {
        return false;
    }
    let mut i: usize = 0;
    while i < base.len()
        invariant
            i <= base.len() <= path.len(),
            forall|k: int| 0 <= k < i ==> path@[k]@ == base@[k]@,
        decreases base.len() - i,
    {
        if !same_chars(path[i].as_slice(), base[i].as_slice()) {
            assert(nested(path@).take(base@.len() as int)[i as int] == path@[i as int]@);
            assert(nested(base@)[i as int] == base@[i as int]@);
            return false;
        }
        i += 1;
    }
    assert(nested(path@).take(base@.len() as int) =~= nested(base@));
    true
}

/// `last_index_of` looks at the characters only.
proof fn lemma_last_index(s: Seq<char>, c: char, at: int)
    requires
        0 <= at < s.len(),
        s[at] == c,
        forall|k: int| at < k < s.len() ==> s[k] != c,
    ensures
        last_index_of(s, c) == at,
    decreases s.len(),
{
    if s.last() != c {
        lemma_last_index(s.drop_last(), c, at);
    }
}

/// Without the character there is no last index.
proof fn lemma_no_index(s: Seq<char>, c: char)
    requires
        forall|k: int| 0 <= k < s.len() ==> s[k] != c,
    ensures
        last_index_of(s, c) == -1,
    decreases s.len(),
{
    if s.len() > 0 {
        lemma_no_index(s.drop_last(), c);
    }
}

/// The extension of a file name.
pub fn name_extension(name: &[char]) -> (ext: Option<Vec<char>>)
    ensures
        match ext {
            Some(e) => extension_of_name(name@) == Some(e@),
            None => extension_of_name(name@) is None,
        },
{
    match find_last_char(name, '.') {
        Some(dot) => {
            proof {
                lemma_last_index(name@, '.', dot as int);
            }
            if dot > 0 {
                let e = slice_chars(name, dot + 1, name.len());
                assert(name@.subrange(dot + 1, name@.len() as int) =~= name@.skip(dot + 1));
                Some(e)
            } else {
                None
            }
        },
        None => {
            proof {
                lemma_no_index(name@, '.');
            }
            None
        },
    }
}

/// The last component of a path, where it is a name.
pub fn file_name(path: &[char]) -> (name: Option<Vec<char>>)
    ensures
        match name {
            Some(n) => spec_file_name(path@) == Some(n@),
            None => spec_file_name(path@) is None,
        },
{
    let comps = components(path);
    if comps.len() == 0 {
        return None;
    }
    let last = comps[comps.len() - 1].as_slice();
    assert(nested(comps@).last() == last@);
    if is_root(last) || is_current(last) || is_parent(last) {
        None
    } else {
        Some(copy_chars(last))
    }
}

/// The extension of the file name of a path.
pub fn extension(path: &[char]) -> (ext: Option<Vec<char>>)
    ensures
        match ext {
            Some(e) => spec_extension(path@) == Some(e@),
            None => spec_extension(path@) is None,
        },
{
    match file_name(path) {
        Some(name) => name_extension(name.as_slice()),
        None => None,
    }
}

/// The path without its last component.
pub fn parent(path: &[char]) -> (dir: Option<Vec<char>>)
    ensures
        match dir {
            Some(d) => spec_parent(path@) == Some(d@),
            None => spec_parent(path@) is None,
        },
{
    let mut comps = components(path);
    if comps.len() == 0 {
        return None;
    }
    let ghost all = comps@;
    assert(nested(comps@).last() == comps@[comps@.len() - 1]@);
    if is_root(comps[comps.len() - 1].as_slice()) {
        return None;
    }
    comps.pop();
    assert(nested(comps@) =~= nested(all).drop_last());
    Some(render(&comps))
}

} // verus!
