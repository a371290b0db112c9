//! Where templates of system instructions are kept: file names and paths.

use crate::paths::{join_path, spec_join_path};
use crate::text::{chars_of, is_control, spec_is_control, string_of};
use vstd::prelude::*;

verus! {

/// Whether a character may not stand in a file name: a separator of
/// paths, a colon, a wild card, a quotation mark, an angle bracket, a bar,
/// or a control code.
pub open spec fn spec_is_unfit(c: char) -> bool {
    ||| c == '/'
    ||| c == '\\'
    ||| c == ':'
    ||| c == '*'
    ||| c == '?'
    ||| c == '"'
    ||| c == '<'
    ||| c == '>'
    ||| c == '|'
    ||| spec_is_control(c)
}

/// A name with an underscore in place of each character that may not
/// stand in a file name.
pub open spec fn spec_sanitize(name: Seq<char>) -> Seq<char> {
    Seq::new(
        name.len(),
        |i: int|
            if spec_is_unfit(name[i]) {
                '_'
            } else {
                name[i]
            },
    )
}

/// Makes a name fit for a file name.
pub fn sanitize_filename(name: &str) -> (clean: String)
    ensures
        clean@ == spec_sanitize(name@),
{
    let text = chars_of(name);
    let mut out: Vec<char> = Vec::new();
    let mut i: usize = 0;
    while i < text.len()
        invariant
            i <= text.len(),
            out@.len() == i,
            forall|k: int|
                0 <= k < i ==> out@[k] == if spec_is_unfit(text@[k]) {
                    '_'
                } else {
                    text@[k]
                },
        decreases text.len() - i,
    {
        let c = text[i];
        let unfit = c == '/' || c == '\\' || c == ':' || c == '*' || c == '?' || c == '"' || c
            == '<' || c == '>' || c == '|' || is_control(c);
        out.push(
            if unfit {
                '_'
            } else {
                c
            },
        );
        i += 1;
    }
    assert(out@ =~= spec_sanitize(name@));
    string_of(out.as_slice())
}

/// The name of the file that keeps the template of a name.
pub open spec fn spec_template_file(name: Seq<char>) -> Seq<char> {
    spec_sanitize(name) + ".json"@
}

/// The directory of the templates.
#[derive(Debug, PartialEq, Eq)]
pub struct TemplateStorage {
    templates_dir: String,
}

impl TemplateStorage {
    /// The directory.
    pub closed spec fn directory(&self) -> Seq<char> {
        self.templates_dir@
    }

    /// The storage in a directory.
    pub fn in_directory(templates_dir: String) -> (storage: Self)
        ensures
            storage.directory() == templates_dir@,
    {
        TemplateStorage { templates_dir }
    }

    /// The path of the file that keeps the template of a name.
    pub fn get_template_path(&self, name: &str) -> (path: String)
        ensures
            path@ == spec_join_path(self.directory(), spec_template_file(name@)),
    {
        let clean = sanitize_filename(name);
        let mut file = chars_of(clean.as_str());
        crate::text::append_str(&mut file, ".json");
        let dir = chars_of(self.templates_dir.as_str());
        string_of(join_path(dir.as_slice(), file.as_slice()).as_slice())
    }

    /// The directory of the templates.
    pub fn get_templates_dir(&self) -> (dir: &String)
        ensures
            dir@ == self.directory(),
    {
        &self.templates_dir
    }
}

} // verus!
