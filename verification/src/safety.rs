//! The safety manager: every tool call is held against the rules on paths,
//! extensions, sizes and content before anything is done.

use crate::agent::{AgentConfig, ConfigModel};
use crate::completion::{add_text, no_texts};
use crate::paths::{
    components, extension, has_prefix, join_path, normalize, render, spec_components,
    spec_extension, spec_has_prefix, spec_join_path, spec_normalize, spec_render,
};
use crate::pattern::{spec_wildcard_match, wildcard_match};
use crate::text::{
    add_str, byte_len, byte_length, chars_of, concat2, concat3, concat4, concat5, contains_str,
    decimal_string, find_char, first_match, is_control, join, lowercase_chars, lowercase_of,
    nested, no_strs, same_chars, spec_contains, spec_contains_any, spec_decimal, spec_is_control,
    spec_join, str_eq, string_of, strs_view, first_contained,
};
use crate::tools::{spec_param_text, param_text, strings_view, ToolCall, ToolCallModel};
use vstd::prelude::*;

verus! {

/// Why a tool call was turned down.
#[derive(Clone, Copy, Debug, PartialEq, Eq, Structural)]
pub enum SafetyErrorKind {
    /// A file operation came without a path.
    MissingParameter,
    /// The path climbs out of the root, or holds `..`.
    PathTraversal,
    /// The path lies in none of the allowed directories.
    PathNotAllowed,
    /// The path lies in a forbidden directory.
    PathForbidden,
    /// The path looks like that of a file with secrets.
    SensitivePath,
    /// The content is larger than files may be.
    ContentTooLarge,
    /// The extension of the file is not one of those allowed.
    ExtensionNotAllowed,
    /// The content holds something that looks dangerous.
    DangerousContent,
    /// More than a tenth of the content is control characters.
    BinaryContentRejected,
}

/// A tool call was turned down: why, and in words.
#[derive(Debug, PartialEq, Eq)]
pub struct SafetyError {
    pub kind: SafetyErrorKind,
    pub message: String,
}

/// A verdict of the safety manager: nothing, or why the call is turned down, in
/// short and in words.
pub type Verdict = Option<(SafetyErrorKind, Seq<char>)>;

/// Why a verdict turns the call down, in short.
pub open spec fn kind_of(verdict: Verdict) -> Option<SafetyErrorKind> {
    match verdict {
        Some((kind, _)) => Some(kind),
        None => None,
    }
}

/// Why a verdict turns the call down, in words.
pub open spec fn words_of(verdict: Verdict) -> Option<Seq<char>> {
    match verdict {
        Some((_, words)) => Some(words),
        None => None,
    }
}

/// The outcome of a check says what the verdict says.
pub open spec fn agrees(outcome: Result<(), SafetyError>, verdict: Verdict) -> bool {
    match outcome {
        Ok(_) => verdict is None,
        Err(e) => verdict == Some((e.kind, e.message@)),
    }
}

/// Whether a tool works on one file: `read_file`, `write_file`,
/// `update_file` and `file_info` do.
pub open spec fn spec_is_file_operation(tool: Seq<char>) -> bool {
    tool == "read_file"@ || tool == "write_file"@ || tool == "update_file"@ || tool
        == "file_info"@
}

/// Whether a tool changes a file: `write_file` and `update_file` do.
pub open spec fn spec_modifies_files(tool: Seq<char>) -> bool {
    tool == "write_file"@ || tool == "update_file"@
}

/// The directories of the system that no tool may touch.
pub open spec fn spec_default_forbidden() -> Seq<Seq<char>> {
    Seq::empty().push("/etc"@).push("/usr"@).push("/bin"@).push("/sbin"@).push("/boot"@).push(
        "/dev"@,
    ).push("/proc"@).push("/sys"@).push("/var/log"@).push("/var/lib"@).push("/root"@).push(
        "/home/*/.ssh"@,
    ).push("/home/*/.gnupg"@).push("C:\\Windows"@).push("C:\\Program Files"@).push(
        "C:\\Program Files (x86)"@,
    ).push("C:\\System32"@)
}

/// The parts of file names that mark a file with secrets.
pub open spec fn spec_sensitive_patterns() -> Seq<Seq<char>> {
    Seq::empty().push("passwd"@).push("shadow"@).push("hosts"@).push("sudoers"@).push(
        "ssh_config"@,
    ).push("authorized_keys"@).push("id_rsa"@).push("id_dsa"@).push("id_ecdsa"@).push(
        "id_ed25519"@,
    ).push(".env"@).push("config.json"@).push("database.yml"@).push("secrets.yml"@).push(
        "private.key"@,
    ).push("certificate.pem"@)
}

/// The texts that mark dangerous content.
pub open spec fn spec_dangerous_patterns() -> Seq<Seq<char>> {
    Seq::empty().push("rm -rf"@).push("del /s"@).push("format c:"@).push("dd if="@).push(
        ":(){ :|:& };:"@,
    ).push("sudo rm"@).push("chmod 777"@).push("wget http"@).push("curl http"@).push(
        "eval("@,
    ).push("exec("@).push("system("@).push("shell_exec("@).push("<script"@).push(
        "javascript:"@,
    ).push("data:text/html"@)
}

/// The parts of file names that mark a file with secrets.
pub fn sensitive_patterns() -> (list: Vec<&'static str>)
    ensures
        strs_view(list@) == spec_sensitive_patterns(),
{
    let mut list = no_strs();
    add_str(&mut list, "passwd");
    add_str(&mut list, "shadow");
    add_str(&mut list, "hosts");
    add_str(&mut list, "sudoers");
    add_str(&mut list, "ssh_config");
    add_str(&mut list, "authorized_keys");
    add_str(&mut list, "id_rsa");
    add_str(&mut list, "id_dsa");
    add_str(&mut list, "id_ecdsa");
    add_str(&mut list, "id_ed25519");
    add_str(&mut list, ".env");
    add_str(&mut list, "config.json");
    add_str(&mut list, "database.yml");
    add_str(&mut list, "secrets.yml");
    add_str(&mut list, "private.key");
    add_str(&mut list, "certificate.pem");
    list
}

/// The texts that mark dangerous content.
pub fn dangerous_patterns() -> (list: Vec<&'static str>)
    ensures
        strs_view(list@) == spec_dangerous_patterns(),
{
    let mut list = no_strs();
    add_str(&mut list, "rm -rf");
    add_str(&mut list, "del /s");
    add_str(&mut list, "format c:");
    add_str(&mut list, "dd if=");
    add_str(&mut list, ":(){ :|:& };:");
    add_str(&mut list, "sudo rm");
    add_str(&mut list, "chmod 777");
    add_str(&mut list, "wget http");
    add_str(&mut list, "curl http");
    add_str(&mut list, "eval(");
    add_str(&mut list, "exec(");
    add_str(&mut list, "system(");
    add_str(&mut list, "shell_exec(");
    add_str(&mut list, "<script");
    add_str(&mut list, "javascript:");
    add_str(&mut list, "data:text/html");
    list
}

/// How a path stands to the allowed directories.
#[derive(Clone, Copy, Debug, PartialEq, Eq, Structural)]
pub enum Allowance {
    /// It lies in one of them.
    Allowed,
    /// It lies in none of them.
    NotAllowed,
    /// An allowed directory that comes before any that holds the path
    /// climbs out of the root.
    Broken,
}

/// An allowed directory in absolute form, resolved: relative ones start
/// from the current directory.
pub open spec fn allowed_base(current: Seq<char>, allowed: Seq<char>) -> Option<Seq<Seq<char>>> {
    spec_normalize(spec_join_path(current, allowed))
}

/// How a resolved path stands to the allowed directories from index `i`
/// on, taken in order.
pub open spec fn allowance_from(
    path: Seq<Seq<char>>,
    current: Seq<char>,
    allowed: Seq<Seq<char>>,
    i: int,
) -> Allowance
    decreases allowed.len() - i,
{
    if i < 0 || i >= allowed.len() {
        Allowance::NotAllowed
    } else {
        match allowed_base(current, allowed[i]) {
            None => Allowance::Broken,
            Some(base) => if spec_has_prefix(path, base) {
                Allowance::Allowed
            } else {
                allowance_from(path, current, allowed, i + 1)
            },
        }
    }
}

/// Whether one forbidden entry covers a resolved path: an entry with a
/// `*` is a wild card for the text of the path, any other a directory that
/// the path lies in.
pub open spec fn forbidden_by(path: Seq<Seq<char>>, entry: Seq<char>) -> bool {
    if entry.contains('*') {
        spec_wildcard_match(entry, spec_render(path))
    } else {
        spec_has_prefix(path, spec_components(entry))
    }
}

/// Whether some forbidden entry covers a resolved path.
pub open spec fn spec_is_forbidden(path: Seq<Seq<char>>, forbidden: Seq<Seq<char>>) -> bool {
    exists|i: int| 0 <= i < forbidden.len() && forbidden_by(path, #[trigger] forbidden[i])
}

/// How many of the characters are control codes other than line feed,
/// carriage return and tab.
pub open spec fn count_binary(content: Seq<char>) -> nat
    decreases content.len(),
{
    if content.len() == 0 {
        0
    } else {
        count_binary(content.drop_last()) + if spec_is_binary(content.last()) {
            1nat
        } else {
            0nat
        }
    }
}

/// A control code other than line feed, carriage return and tab.
pub open spec fn spec_is_binary(c: char) -> bool {
    spec_is_control(c) && c != '\n' && c != '\r' && c != '\t'
}

/// The state of a safety manager: the configuration, the allowed and the
/// forbidden paths in the order in which they were added, and the current
/// directory.
pub struct ManagerModel {
    pub config: ConfigModel,
    pub allowed: Seq<Seq<char>>,
    pub forbidden: Seq<Seq<char>>,
    pub current: Seq<char>,
}

/// The verdict on the path of a file operation.
///
/// The path is made absolute from the working directory and resolved; one
/// that would climb out of the root is a traversal, and so is one that
/// holds `..` as written, wherever it leads. Then the resolved path has to
/// lie in an allowed directory and in no forbidden one, and its text, in
/// lower case, may hold none of the marks of files with secrets.
pub open spec fn path_verdict(m: ManagerModel, raw: Option<Seq<char>>) -> Verdict {
    match raw {
        None => Some((SafetyErrorKind::MissingParameter, "Missing path parameter"@)),
        Some(path) => match spec_normalize(spec_join_path(m.config.working_directory, path)) {
            None => Some(
                (SafetyErrorKind::PathTraversal, "Path traversal outside root directory"@),
            ),
            Some(stack) => if spec_contains(path, ".."@) {
                Some((SafetyErrorKind::PathTraversal, "Path traversal detected: "@ + path))
            } else {
                membership_verdict(m, stack)
            },
        },
    }
}

/// The verdict on a resolved path: it has to lie in an allowed directory
/// and in no forbidden one, and may not look like a file with secrets.
pub open spec fn membership_verdict(m: ManagerModel, stack: Seq<Seq<char>>) -> Verdict {
    match allowance_from(stack, m.current, m.allowed, 0) {
        Allowance::Broken => Some(
            (SafetyErrorKind::PathTraversal, "Path traversal outside root directory"@),
        ),
        Allowance::NotAllowed => Some(
            (
                SafetyErrorKind::PathNotAllowed,
                "Path '"@ + spec_render(stack) + "' is outside allowed directories"@,
            ),
        ),
        Allowance::Allowed => if spec_is_forbidden(stack, m.forbidden) {
            Some(
                (
                    SafetyErrorKind::PathForbidden,
                    "Path '"@ + spec_render(stack) + "' is in a forbidden directory"@,
                ),
            )
        } else {
            sensitive_verdict(spec_render(stack))
        },
    }
}

/// The verdict on a resolved path that may name a file with secrets.
pub open spec fn sensitive_verdict(path: Seq<char>) -> Verdict {
    if spec_contains_any(lowercase_of(path), spec_sensitive_patterns()) {
        Some(
            (
                SafetyErrorKind::SensitivePath,
                "Access to potentially sensitive file '"@ + path + "' is not allowed"@,
            ),
        )
    } else {
        None
    }
}

/// The verdict on the size of the content: it may take as many bytes as
/// the configuration allows, and no more.
pub open spec fn size_verdict(max_file_size: nat, content: Option<Seq<char>>) -> Verdict {
    match content {
        Some(text) => if byte_len(text) > max_file_size {
            Some(
                (
                    SafetyErrorKind::ContentTooLarge,
                    "Content size ("@ + spec_decimal(byte_len(text))
                        + " bytes) exceeds maximum allowed size ("@ + spec_decimal(max_file_size)
                        + " bytes)"@,
                ),
            )
        } else {
            None
        },
        None => None,
    }
}

/// The verdict on the extension of the path as written: where it has one,
/// that has to be among the allowed ones once in lower case.
pub open spec fn extension_verdict(allowed: Seq<Seq<char>>, raw: Option<Seq<char>>) -> Verdict {
    match raw {
        None => Some((SafetyErrorKind::MissingParameter, "Missing path parameter"@)),
        Some(path) => match spec_extension(path) {
            Some(ext) => if allowed.contains(lowercase_of(ext)) {
                None
            } else {
                Some(
                    (
                        SafetyErrorKind::ExtensionNotAllowed,
                        "File extension '"@ + ext + "' is not allowed. Allowed extensions: "@
                            + spec_join(allowed, ", "@),
                    ),
                )
            },
            None => None,
        },
    }
}

/// The share of control codes in the content, in hundredths, rounded down.
pub open spec fn binary_percent(content: Seq<char>) -> nat {
    if byte_len(content) == 0 {
        0
    } else {
        (100 * count_binary(content)) / byte_len(content)
    }
}

/// The verdict on the content: in lower case it may hold none of the
/// dangerous texts (the first of the list that it holds is named), and no
/// more than a tenth of its bytes may be control codes.
pub open spec fn content_verdict(content: Option<Seq<char>>) -> Verdict {
    match content {
        None => None,
        Some(text) => if spec_contains_any(lowercase_of(text), spec_dangerous_patterns()) {
            Some(
                (
                    SafetyErrorKind::DangerousContent,
                    "Content contains potentially dangerous pattern: '"@ + spec_dangerous_patterns()[choose|
                        at: int,
                    |
                        first_contained(lowercase_of(text), spec_dangerous_patterns(), at)] + "'"@,
                ),
            )
        } else if 10 * count_binary(text) > byte_len(text) {
            Some(
                (
                    SafetyErrorKind::BinaryContentRejected,
                    "Content appears to contain binary data ("@ + spec_decimal(
                        binary_percent(text),
                    ) + "% non-text characters)"@,
                ),
            )
        } else {
            None
        },
    }
}

/// The verdict on a tool call: that of the first check that
/// turns it down. The path of a file operation is checked first, then the
/// size of what is to be written, then the extension, then the content.
/// A call of a tool that works on no single file passes.
pub open spec fn spec_verdict(m: ManagerModel, call: ToolCallModel) -> Verdict {
    let path = spec_param_text(call.parameters, "path"@);
    let content = spec_param_text(call.parameters, "content"@);
    if !spec_is_file_operation(call.tool) {
        None
    } else if path_verdict(m, path) is Some {
        path_verdict(m, path)
    } else if spec_modifies_files(call.tool) && size_verdict(m.config.max_file_size, content)
        is Some {
        size_verdict(m.config.max_file_size, content)
    } else if extension_verdict(m.config.allowed_extensions, path) is Some {
        extension_verdict(m.config.allowed_extensions, path)
    } else if spec_modifies_files(call.tool) {
        content_verdict(content)
    } else {
        None
    }
}

/// Whether the manager would let a path through, going by the allowed and
/// the forbidden directories alone.
pub open spec fn spec_would_allow(m: ManagerModel, path: Seq<char>) -> bool {
    match spec_normalize(spec_join_path(m.config.working_directory, path)) {
        None => false,
        Some(stack) => allowance_from(stack, m.current, m.allowed, 0) == Allowance::Allowed
            && !spec_is_forbidden(stack, m.forbidden),
    }
}

fn refuse(kind: SafetyErrorKind, message: String) -> (r: Result<(), SafetyError>)
    ensures
        agrees(r, Some((kind, message@))),
{
    Err(SafetyError { kind, message })
}

/// The safety manager: vets tool calls against the rules of a configuration
/// and its own lists of allowed and forbidden paths.
#[derive(Debug)]
pub struct SafetyManager {
    config: AgentConfig,
    allowed_paths: Vec<String>,
    forbidden_paths: Vec<String>,
    current_directory: String,
}

impl View for SafetyManager {
    type V = ManagerModel;

    closed spec fn view(&self) -> ManagerModel {
        ManagerModel {
            config: self.config@,
            allowed: strings_view(self.allowed_paths@),
            forbidden: strings_view(self.forbidden_paths@),
            current: self.current_directory@,
        }
    }
}

impl SafetyManager {
    /// A manager for a configuration: the working directory is allowed, the
    /// directories of the system are forbidden. `current_directory` is
    /// where allowed paths that are relative start from.
    pub fn new(config: &AgentConfig, current_directory: &str) -> (r: Result<Self, SafetyError>)
        ensures
            r is Ok,
            r->Ok_0@ == (ManagerModel {
                config: config@,
                allowed: seq![config.working_directory@],
                forbidden: spec_default_forbidden(),
                current: current_directory@,
            }),
    {
        Ok(Self::with_defaults(config, current_directory))
    }

    /// A manager for a configuration, with the default lists.
    pub fn with_defaults(config: &AgentConfig, current_directory: &str) -> (manager: Self)
        ensures
            manager@ == (ManagerModel {
                config: config@,
                allowed: seq![config.working_directory@],
                forbidden: spec_default_forbidden(),
                current: current_directory@,
            }),
    {
        let mut manager = SafetyManager {
            config: config.duplicate(),
            allowed_paths: no_texts(),
            forbidden_paths: no_texts(),
            current_directory: current_directory.to_owned(),
        };
        manager.setup_default_restrictions();
        manager
    }

    /// Allows the working directory and forbids the directories of the
    /// system.
    fn setup_default_restrictions(&mut self)
        requires
            old(self)@.allowed == Seq::<Seq<char>>::empty(),
            old(self)@.forbidden == Seq::<Seq<char>>::empty(),
        ensures
            final(self)@ == (ManagerModel {
                allowed: seq![old(self)@.config.working_directory],
                forbidden: spec_default_forbidden(),
                ..old(self)@
            }),
    {
        add_text(&mut self.allowed_paths, self.config.working_directory.as_str());
        add_text(&mut self.forbidden_paths, "/etc");
        add_text(&mut self.forbidden_paths, "/usr");
        add_text(&mut self.forbidden_paths, "/bin");
        add_text(&mut self.forbidden_paths, "/sbin");
        add_text(&mut self.forbidden_paths, "/boot");
        add_text(&mut self.forbidden_paths, "/dev");
        add_text(&mut self.forbidden_paths, "/proc");
        add_text(&mut self.forbidden_paths, "/sys");
        add_text(&mut self.forbidden_paths, "/var/log");
        add_text(&mut self.forbidden_paths, "/var/lib");
        add_text(&mut self.forbidden_paths, "/root");
        add_text(&mut self.forbidden_paths, "/home/*/.ssh");
        add_text(&mut self.forbidden_paths, "/home/*/.gnupg");
        add_text(&mut self.forbidden_paths, "C:\\Windows");
        add_text(&mut self.forbidden_paths, "C:\\Program Files");
        add_text(&mut self.forbidden_paths, "C:\\Program Files (x86)");
        add_text(&mut self.forbidden_paths, "C:\\System32");
        assert(strings_view(self.allowed_paths@) =~= seq![old(self)@.config.working_directory]);
    }

    /// Whether a tool works on one file.
    pub fn is_file_operation(&self, tool_name: &str) -> (r: bool)
        ensures
            r == spec_is_file_operation(tool_name@),
    {
        str_eq(tool_name, "read_file") || str_eq(tool_name, "write_file") || str_eq(
            tool_name,
            "update_file",
        ) || str_eq(tool_name, "file_info")
    }

    /// Whether a tool changes a file.
    pub fn modifies_files(&self, tool_name: &str) -> (r: bool)
        ensures
            r == spec_modifies_files(tool_name@),
    {
        str_eq(tool_name, "write_file") || str_eq(tool_name, "update_file")
    }

    /// How a resolved path stands to the allowed directories.
    pub fn is_path_allowed(&self, path: &Vec<Vec<char>>) -> (r: Allowance)
        ensures
            r == allowance_from(nested(path@), self@.current, self@.allowed, 0),
    {
        let current = chars_of(self.current_directory.as_str());
        let mut i: usize = 0;
        while i < self.allowed_paths.len()
            invariant
                i <= self.allowed_paths.len(),
                current@ == self@.current,
                allowance_from(nested(path@), self@.current, self@.allowed, i as int)
                    == allowance_from(nested(path@), self@.current, self@.allowed, 0),
            decreases self.allowed_paths.len() - i,
        {
            let allowed = chars_of(self.allowed_paths[i].as_str());
            assert(self@.allowed[i as int] == allowed@);
            let absolute = join_path(current.as_slice(), allowed.as_slice());
            match normalize(absolute.as_slice()) {
                None => { return Allowance::Broken; },
                Some(base) => {
                    if has_prefix(path, &base) {
                        return Allowance::Allowed;
                    }
                },
            }
            i += 1;
        }
        Allowance::NotAllowed
    }

    /// Whether a wild card matches the text of a path somewhere.
    pub fn matches_wildcard_pattern(&self, path: &[char], pattern: &[char]) -> (r: bool)
        ensures
            r == spec_wildcard_match(pattern@, path@),
    {
        wildcard_match(pattern, path)
    }

    /// Whether some forbidden entry covers a resolved path.
    pub fn is_path_forbidden(&self, path: &Vec<Vec<char>>) -> (r: bool)
        ensures
            r == spec_is_forbidden(nested(path@), self@.forbidden),
    {
        let text = render(path);
        let mut i: usize = 0;
        while i < self.forbidden_paths.len()
            invariant
                i <= self.forbidden_paths.len(),
                text@ == spec_render(nested(path@)),
                forall|j: int|
                    0 <= j < i ==> !forbidden_by(nested(path@), #[trigger] self@.forbidden[j]),
            decreases self.forbidden_paths.len() - i,
        {
            let entry = chars_of(self.forbidden_paths[i].as_str());
            assert(self@.forbidden[i as int] == entry@);
            let covered = match find_char(entry.as_slice(), '*', 0) {
                Some(at) => {
                    assert(entry@.contains('*'));
                    self.matches_wildcard_pattern(text.as_slice(), entry.as_slice())
                },
                None => {
                    assert(!entry@.contains('*'));
                    let base = components(entry.as_slice());
                    has_prefix(path, &base)
                },
            };
            if covered {
                return true;
            }
            i += 1;
        }
        false
    }

    /// Turns down a resolved path that may name a file with secrets.
    pub fn check_suspicious_paths(&self, path: &[char]) -> (r: Result<(), SafetyError>)
        ensures
            agrees(r, sensitive_verdict(path@)),
    {
        let lower = lowercase_chars(path);
        let list = sensitive_patterns();
        match first_match(lower.as_slice(), &list) {
            Some(_) => {
                let shown = string_of(path);
                refuse(
                    SafetyErrorKind::SensitivePath,
                    concat3(
                        "Access to potentially sensitive file '",
                        shown.as_str(),
                        "' is not allowed",
                    ),
                )
            },
            None => Ok(()),
        }
    }

    /// Checks the path of a file operation.
#[verifier::rlimit(40)]
    pub fn check_file_path_safety(&self, tool_call: &ToolCall) -> (r: Result<(), SafetyError>)
        ensures
            agrees(r, path_verdict(self@, spec_param_text(tool_call@.parameters, "path"@))),
    {
        let raw = match param_text(&tool_call.parameters, "path") {
            Some(raw) => raw,
            None => {
                return refuse(
                    SafetyErrorKind::MissingParameter,
                    "Missing path parameter".to_owned(),
                );
            },
        };
        let path = chars_of(raw.as_str());
        let base = chars_of(self.config.working_directory.as_str());
        let absolute = join_path(base.as_slice(), path.as_slice());
        let stack = match normalize(absolute.as_slice()) {
            Some(stack) => stack,
            None => {
                return refuse(
                    SafetyErrorKind::PathTraversal,
                    "Path traversal outside root directory".to_owned(),
                );
            },
        };
        if contains_str(path.as_slice(), "..") {
            return refuse(
                SafetyErrorKind::PathTraversal,
                concat2("Path traversal detected: ", raw.as_str()),
            );
        }
        let shown = string_of(render(&stack).as_slice());
        match self.is_path_allowed(&stack) {
            Allowance::Broken => {
                return refuse(
                    SafetyErrorKind::PathTraversal,
                    "Path traversal outside root directory".to_owned(),
                );
            },
            Allowance::NotAllowed => {
                return refuse(
                    SafetyErrorKind::PathNotAllowed,
                    concat3("Path '", shown.as_str(), "' is outside allowed directories"),
                );
            },
            Allowance::Allowed => {},
        }
        if self.is_path_forbidden(&stack) {
            return refuse(
                SafetyErrorKind::PathForbidden,
                concat3("Path '", shown.as_str(), "' is in a forbidden directory"),
            );
        }
        let text = chars_of(shown.as_str());
        self.check_suspicious_paths(text.as_slice())
    }

    /// Checks the size of what is to be written.
    pub fn check_file_size_limits(&self, tool_call: &ToolCall) -> (r: Result<(), SafetyError>)
        ensures
            agrees(
                r,
                size_verdict(
                    self@.config.max_file_size,
                    spec_param_text(tool_call@.parameters, "content"@),
                ),
            ),
    {
        match param_text(&tool_call.parameters, "content") {
            Some(content) => {
                let size = byte_length(content.as_str());
                if size > self.config.max_file_size {
                    refuse(
                        SafetyErrorKind::ContentTooLarge,
                        concat5(
                            "Content size (",
                            decimal_string(size as u128).as_str(),
                            " bytes) exceeds maximum allowed size (",
                            decimal_string(self.config.max_file_size as u128).as_str(),
                            " bytes)",
                        ),
                    )
                } else {
                    Ok(())
                }
            },
            None => Ok(()),
        }
    }

    /// Checks the extension of the path as written.
#[verifier::rlimit(40)]
    pub fn check_file_extension(&self, tool_call: &ToolCall) -> (r: Result<(), SafetyError>)
        ensures
            agrees(
                r,
                extension_verdict(
                    self@.config.allowed_extensions,
                    spec_param_text(tool_call@.parameters, "path"@),
                ),
            ),
    {
        let raw = match param_text(&tool_call.parameters, "path") {
            Some(raw) => raw,
            None => {
                return refuse(
                    SafetyErrorKind::MissingParameter,
                    "Missing path parameter".to_owned(),
                );
            },
        };
        let path = chars_of(raw.as_str());
        let ext = match extension(path.as_slice()) {
            Some(ext) => ext,
            None => { return Ok(()); },
        };
        let lower = lowercase_chars(ext.as_slice());
        let mut listed: Vec<Vec<char>> = Vec::new();
        let mut found = false;
        let mut i: usize = 0;
        while i < self.config.allowed_extensions.len()
            invariant
                i <= self.config.allowed_extensions.len(),
                listed@.len() == i,
                forall|j: int| 0 <= j < i ==> listed@[j]@ == self@.config.allowed_extensions[j],
                found == (exists|j: int|
                    0 <= j < i && #[trigger] self@.config.allowed_extensions[j] == lower@),
            decreases self.config.allowed_extensions.len() - i,
        {
            let entry = chars_of(self.config.allowed_extensions[i].as_str());
            assert(self@.config.allowed_extensions[i as int] == entry@);
            if same_chars(entry.as_slice(), lower.as_slice()) {
                found = true;
            }
            listed.push(entry);
            i += 1;
        }
        assert(nested(listed@) =~= self@.config.allowed_extensions);
        if found {
            Ok(())
        } else {
            let names = join(&listed, chars_of(", ").as_slice());
            refuse(
                SafetyErrorKind::ExtensionNotAllowed,
                concat4(
                    "File extension '",
                    string_of(ext.as_slice()).as_str(),
                    "' is not allowed. Allowed extensions: ",
                    string_of(names.as_slice()).as_str(),
                ),
            )
        }
    }

    /// Checks what is to be written for dangerous and for binary content.
#[verifier::rlimit(40)]
    pub fn check_content_safety(&self, tool_call: &ToolCall) -> (r: Result<(), SafetyError>)
        ensures
            agrees(r, content_verdict(spec_param_text(tool_call@.parameters, "content"@))),
    {
        let content = match param_text(&tool_call.parameters, "content") {
            Some(content) => content,
            None => { return Ok(()); },
        };
        let lower = to_lower(content.as_str());
        let list = dangerous_patterns();
        match first_match(lower.as_slice(), &list) {
            Some(at) => {
                proof {
                    let chosen = choose|k: int|
                        first_contained(lowercase_of(content@), spec_dangerous_patterns(), k);
                    assert(first_contained(lowercase_of(content@), strs_view(list@), at as int));
                    assert(chosen == at) by {
                        if chosen < at {
                            assert(!spec_contains(lowercase_of(content@), strs_view(list@)[chosen]));
                        } else if at < chosen {
                            assert(!spec_contains(
                                lowercase_of(content@),
                                strs_view(list@)[at as int],
                            ));
                        }
                    }
                    assert(strs_view(list@)[at as int] == list@[at as int]@);
                }
                return refuse(
                    SafetyErrorKind::DangerousContent,
                    concat3("Content contains potentially dangerous pattern: '", list[at], "'"),
                );
            },
            None => {},
        }
        let text = chars_of(content.as_str());
        let size = byte_length(content.as_str());
        let binary = count_binary_chars(text.as_slice());
        if 10 * (binary as u128) > size as u128 {
            let percent = (100 * (binary as u128)) / (size as u128);
            assert(percent == binary_percent(content@)) by {
                assert(size > 0);
            }
            refuse(
                SafetyErrorKind::BinaryContentRejected,
                concat3(
                    "Content appears to contain binary data (",
                    decimal_string(percent).as_str(),
                    "% non-text characters)",
                ),
            )
        } else {
            Ok(())
        }
    }

    /// Vets a tool call. `Ok` lets it through; an error says which rule
    /// turned it down first, and why.
    pub fn check_tool_call(&self, tool_call: &ToolCall) -> (r: Result<(), SafetyError>)
        ensures
            agrees(r, spec_verdict(self@, tool_call@)),
    {
        let file_operation = self.is_file_operation(tool_call.tool.as_str());
        let modifies = self.modifies_files(tool_call.tool.as_str());
        if !file_operation {
            return Ok(());
        }
        match self.check_file_path_safety(tool_call) {
            Err(e) => { return Err(e); },
            Ok(_) => {},
        }
        if modifies {
            match self.check_file_size_limits(tool_call) {
                Err(e) => { return Err(e); },
                Ok(_) => {},
            }
        }
        match self.check_file_extension(tool_call) {
            Err(e) => { return Err(e); },
            Ok(_) => {},
        }
        if modifies {
            self.check_content_safety(tool_call)
        } else {
            Ok(())
        }
    }

    /// Adds a directory in which paths are allowed.
    pub fn add_allowed_path(&mut self, path: String)
        ensures
            final(self)@ == (ManagerModel {
                allowed: old(self)@.allowed.push(path@),
                ..old(self)@
            }),
    {
        add_text(&mut self.allowed_paths, path.as_str());
    }

    /// Adds a directory, or a wild card, in which paths are forbidden.
    pub fn add_forbidden_path(&mut self, path: String)
        ensures
            final(self)@ == (ManagerModel {
                forbidden: old(self)@.forbidden.push(path@),
                ..old(self)@
            }),
    {
        add_text(&mut self.forbidden_paths, path.as_str());
    }

    /// The allowed directories, in the order in which they were added.
    pub fn allowed_paths(&self) -> (paths: &Vec<String>)
        ensures
            strings_view(paths@) == self@.allowed,
    {
        &self.allowed_paths
    }

    /// The forbidden entries, in the order in which they were added.
    pub fn forbidden_paths(&self) -> (paths: &Vec<String>)
        ensures
            strings_view(paths@) == self@.forbidden,
    {
        &self.forbidden_paths
    }

    /// Whether a path would pass the checks on allowed and forbidden
    /// directories. A path that cannot be resolved would not.
    pub fn would_allow_path(&self, path: &str) -> (r: bool)
        ensures
            r == spec_would_allow(self@, path@),
    {
        let p = chars_of(path);
        let base = chars_of(self.config.working_directory.as_str());
        let absolute = join_path(base.as_slice(), p.as_slice());
        match normalize(absolute.as_slice()) {
            Some(stack) => self.is_path_allowed(&stack) == Allowance::Allowed
                && !self.is_path_forbidden(&stack),
            None => false,
        }
    }
}

/// The content in lower case.
fn to_lower(content: &str) -> (lower: Vec<char>)
    ensures
        lower@ == lowercase_of(content@),
{
    let text = chars_of(content);
    lowercase_chars(text.as_slice())
}

/// Counts the control codes other than line feed, carriage return and tab.
pub fn count_binary_chars(content: &[char]) -> (n: usize)
    ensures
        n == count_binary(content@),
{
    let mut n: usize = 0;
    let mut i: usize = 0;
    assert(content@.take(0) =~= Seq::empty());
    while i < content.len()
        invariant
            i <= content.len(),
            n <= i,
            n == count_binary(content@.take(i as int)),
        decreases content.len() - i,
    {
        assert(content@.take(i + 1).drop_last() =~= content@.take(i as int));
        let c = content[i];
        if is_control(c) && c != '\n' && c != '\r' && c != '\t' {
            n += 1;
        }
        i += 1;
    }
    assert(content@.take(content@.len() as int) =~= content@);
    n
}

/// A file operation on a path that holds `..`, or that would climb out of
/// the root, is turned down as a traversal, whatever the configuration and
/// the lists of the manager.
pub proof fn lemma_traversal_is_refused(m: ManagerModel, call: ToolCallModel, path: Seq<char>)
    requires
        spec_is_file_operation(call.tool),
        spec_param_text(call.parameters, "path"@) == Some(path),
        spec_contains(path, ".."@) || spec_normalize(
            spec_join_path(m.config.working_directory, path),
        ) is None,
    ensures
        kind_of(spec_verdict(m, call)) == Some(SafetyErrorKind::PathTraversal),
{
    assert(kind_of(path_verdict(m, Some(path))) == Some(SafetyErrorKind::PathTraversal));
}

/// A forbidden entry binds: a file operation on a path that an entry of
/// the manager's list covers is turned down, whichever directories are
/// allowed. So does an entry that is added later: it is an entry of the
/// list from then on.
pub proof fn lemma_forbidden_entries_bind(
    m: ManagerModel,
    call: ToolCallModel,
    path: Seq<char>,
    entry: int,
)
    requires
        spec_is_file_operation(call.tool),
        spec_param_text(call.parameters, "path"@) == Some(path),
        0 <= entry < m.forbidden.len(),
        spec_normalize(spec_join_path(m.config.working_directory, path)) matches Some(stack)
            && forbidden_by(stack, m.forbidden[entry]),
    ensures
        spec_verdict(m, call) is Some,
        !spec_would_allow(m, path),
{
    let stack = spec_normalize(spec_join_path(m.config.working_directory, path))->0;
    assert(spec_is_forbidden(stack, m.forbidden));
    assert(path_verdict(m, Some(path)) is Some);
}

/// A file operation without a path is turned down for the missing
/// parameter.
pub proof fn lemma_path_is_required(m: ManagerModel, call: ToolCallModel)
    requires
        spec_is_file_operation(call.tool),
        spec_param_text(call.parameters, "path"@) is None,
    ensures
        spec_verdict(m, call) matches Some((kind, _)) && kind == SafetyErrorKind::MissingParameter,
{
}

/// A call to read a file whose extension is not among the allowed ones
/// is turned down, and for its extension where its path is in order. An
/// extension that is allowed, once in lower case, and a path without
/// extension pass the check of the extension.
pub proof fn lemma_extension_allow_list(m: ManagerModel, call: ToolCallModel, path: Seq<char>)
    requires
        call.tool == "read_file"@,
        spec_param_text(call.parameters, "path"@) == Some(path),
    ensures
        spec_extension(path) matches Some(ext) && !m.config.allowed_extensions.contains(
            lowercase_of(ext),
        ) ==> spec_verdict(m, call) is Some,
        spec_extension(path) matches Some(ext) && !m.config.allowed_extensions.contains(
            lowercase_of(ext),
        ) && path_verdict(m, Some(path)) is None ==> kind_of(spec_verdict(m, call)) == Some(
            SafetyErrorKind::ExtensionNotAllowed,
        ),
        spec_extension(path) is None ==> extension_verdict(
            m.config.allowed_extensions,
            Some(path),
        ) is None,
        spec_extension(path) matches Some(ext) && m.config.allowed_extensions.contains(
            lowercase_of(ext),
        ) ==> extension_verdict(m.config.allowed_extensions, Some(path)) is None,
{
    reveal_strlit("read_file");
    reveal_strlit("write_file");
    reveal_strlit("update_file");
    assert("read_file"@.len() == 9 && "write_file"@.len() == 10 && "update_file"@.len() == 11);
    assert(!spec_modifies_files(call.tool));
}

/// A call that writes content of more bytes than files may have is
/// turned down, and for its size where its path is in order. Content of
/// exactly as many bytes, or fewer, passes the check of the size.
pub proof fn lemma_size_limit(m: ManagerModel, call: ToolCallModel, content: Seq<char>)
    requires
        spec_modifies_files(call.tool),
        spec_param_text(call.parameters, "content"@) == Some(content),
    ensures
        byte_len(content) > m.config.max_file_size ==> spec_verdict(m, call) is Some,
        byte_len(content) > m.config.max_file_size && path_verdict(
            m,
            spec_param_text(call.parameters, "path"@),
        ) is None ==> kind_of(spec_verdict(m, call)) == Some(SafetyErrorKind::ContentTooLarge),
        byte_len(content) <= m.config.max_file_size ==> size_verdict(
            m.config.max_file_size,
            Some(content),
        ) is None,
{
}

/// A call that writes content which, in lower case, holds one of the
/// dangerous texts is turned down. Content that holds none of them, and of
/// whose bytes no more than a tenth are control codes, passes the check of
/// the content.
pub proof fn lemma_dangerous_content(m: ManagerModel, call: ToolCallModel, content: Seq<char>)
    requires
        spec_modifies_files(call.tool),
        spec_param_text(call.parameters, "content"@) == Some(content),
    ensures
        spec_contains_any(lowercase_of(content), spec_dangerous_patterns()) ==> spec_verdict(
            m,
            call,
        ) is Some,
        spec_contains(lowercase_of(content), "rm -rf"@) ==> spec_verdict(m, call) is Some,
        !spec_contains_any(lowercase_of(content), spec_dangerous_patterns()) && 10 * count_binary(
            content,
        ) <= byte_len(content) ==> content_verdict(Some(content)) is None,
        !spec_contains_any(lowercase_of(content), spec_dangerous_patterns()) && 10 * count_binary(
            content,
        ) > byte_len(content) ==> spec_verdict(m, call) is Some,
{
    assert(spec_dangerous_patterns()[0] == "rm -rf"@);
    if spec_contains_any(lowercase_of(content), spec_dangerous_patterns()) {
        assert(content_verdict(Some(content)) is Some);
    }
}

/// Two checks of one call by one manager come to the same: both let the
/// call through, or both turn it down for the same reason and in the same
/// words. Nothing but the call and the state of the manager bears on the
/// outcome.
pub proof fn lemma_check_is_repeatable(
    m: ManagerModel,
    call: ToolCallModel,
    first: Result<(), SafetyError>,
    second: Result<(), SafetyError>,
)
    requires
        agrees(first, spec_verdict(m, call)),
        agrees(second, spec_verdict(m, call)),
    ensures
        first is Ok == second is Ok,
        first is Err ==> first->Err_0.kind == second->Err_0.kind && first->Err_0.message@
            == second->Err_0.message@,
{
}

/// A call of a tool that works on no single file passes.
pub proof fn lemma_other_tools_pass(m: ManagerModel, call: ToolCallModel)
    requires
        !spec_is_file_operation(call.tool),
    ensures
        spec_verdict(m, call) is None,
{
}

/// A file operation passes only on a path that resolves, lies in an
/// allowed directory and in no forbidden one.
pub proof fn lemma_passed_paths_are_allowed(m: ManagerModel, call: ToolCallModel)
    requires
        spec_is_file_operation(call.tool),
        spec_verdict(m, call) is None,
    ensures
        spec_param_text(call.parameters, "path"@) matches Some(path) && spec_would_allow(m, path)
            && !spec_contains(path, ".."@),
{
    let path = spec_param_text(call.parameters, "path"@);
    assert(path_verdict(m, path) is None);
}

} // verus!
