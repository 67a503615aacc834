//! Decisions of the path validator. The filesystem work (resolving the
//! working directory, canonicalizing, reading metadata) happens outside;
//! these functions decide on what it found.
use vstd::prelude::*;
use crate::text::{
    begins_with, chars_of, lower_of, occurs, occurs_at_exec, occurs_exec, same_text, substring_of,
    to_lower,
};

verus! {

/// The platform whose path conventions and deny-list apply.
#[derive(Clone, Copy, Debug, PartialEq, Eq, Structural)]
pub enum Platform {
    Posix,
    Windows,
}

/// Why a path was rejected.
#[derive(Clone, Copy, Debug, PartialEq, Eq, Structural)]
pub enum PathRejection {
    /// The raw path holds `..`.
    Traversal,
    /// The working directory could not be read to resolve a relative path.
    NoWorkingDir,
    /// Canonicalization failed (missing path, permissions, ...).
    Unresolvable,
    /// The file name has no extension.
    NoExtension,
    /// The extension is not one of the markdown extensions.
    BadExtension,
    /// The path lies in a system directory of the deny-list.
    Forbidden,
    /// Nothing exists at the path.
    Missing,
    /// The path names something other than a regular file.
    NotAFile,
}

/// A rejected path: the reason, and the text that the message names (the
/// extension, the denied directory, the path, or the underlying error).
#[derive(Clone, Debug)]
pub struct PathError {
    pub reason: PathRejection,
    pub detail: String,
}

pub open spec fn is_separator(c: char, platform: Platform) -> bool {
    c == '/' || (platform == Platform::Windows && c == '\\')
}

/// The index where the last component of `s[..i]` begins.
pub open spec fn name_start(s: Seq<char>, platform: Platform, i: int) -> int
    decreases i,
{
    if i <= 0 {
        0
    } else if is_separator(s[i - 1], platform) {
        i
    } else {
        name_start(s, platform, i - 1)
    }
}

/// The last component of a canonical path.
pub open spec fn file_name(s: Seq<char>, platform: Platform) -> Seq<char> {
    s.subrange(name_start(s, platform, s.len() as int), s.len() as int)
}

/// The index of the last `.` in `n[..i]`, if any.
pub open spec fn last_dot(n: Seq<char>, i: int) -> Option<int>
    decreases i,
{
    if i <= 0 {
        None
    } else if n[i - 1] == '.' {
        Some(i - 1)
    } else {
        last_dot(n, i - 1)
    }
}

/// The extension of a file name: what follows its last `.`, where that
/// `.` is not the name's first character.
pub open spec fn name_extension(n: Seq<char>) -> Option<Seq<char>> {
    match last_dot(n, n.len() as int) {
        Some(d) => if d == 0 { None } else { Some(n.subrange(d + 1, n.len() as int)) },
        None => None,
    }
}

/// The extension of a canonical path.
pub open spec fn path_extension(s: Seq<char>, platform: Platform) -> Option<Seq<char>> {
    name_extension(file_name(s, platform))
}

/// The extensions accepted as markdown, compared in lower case.
pub open spec fn is_markdown_extension(e: Seq<char>) -> bool {
    e == "md"@ || e == "markdown"@ || e == "mdown"@ || e == "mkd"@
}

/// The system directories that may not be read, in lower case.
pub open spec fn denied_dirs(platform: Platform) -> Seq<Seq<char>> {
    match platform {
        Platform::Posix => seq![
            "/etc"@,
            "/proc"@,
            "/sys"@,
            "/dev"@,
            "/root"@,
            "/boot"@,
            "/var/log"@,
        ],
        Platform::Windows => seq![
            "c:\\windows"@,
            "c:\\program files"@,
            "c:\\program files (x86)"@,
            "c:\\users\\default"@,
            "c:\\programdata"@,
        ],
    }
}

/// The first entry of `dirs[i..]` that `p` begins with.
pub open spec fn first_denied(p: Seq<char>, dirs: Seq<Seq<char>>, i: int) -> Option<Seq<char>>
    decreases dirs.len() - i,
{
    if i < 0 || i >= dirs.len() {
        None
    } else if begins_with(p, dirs[i]) {
        Some(dirs[i])
    } else {
        first_denied(p, dirs, i + 1)
    }
}

/// What the checks on a canonical path decide, in their order: extension,
/// deny-list (on the lower-cased path), existence, kind.
pub open spec fn resolved_verdict(
    canonical: Seq<char>,
    platform: Platform,
    exists: bool,
    is_file: bool,
) -> Option<(PathRejection, Seq<char>)> {
    match path_extension(canonical, platform) {
        None => Some((PathRejection::NoExtension, Seq::empty())),
        Some(e) => if !is_markdown_extension(lower_of(e)) {
            Some((PathRejection::BadExtension, e))
        } else {
            match first_denied(lower_of(canonical), denied_dirs(platform), 0) {
                Some(d) => Some((PathRejection::Forbidden, d)),
                None => if !exists {
                    Some((PathRejection::Missing, canonical))
                } else if !is_file {
                    Some((PathRejection::NotAFile, canonical))
                } else {
                    None
                },
            }
        },
    }
}

/// The message for a rejection.
pub open spec fn rejection_message(reason: PathRejection, detail: Seq<char>) -> Seq<char> {
    match reason {
        PathRejection::Traversal => "Path traversal detected: '..' not allowed in file paths"@,
        PathRejection::NoWorkingDir => "Failed to get current directory: "@ + detail,
        PathRejection::Unresolvable => "Invalid file path: "@ + detail,
        PathRejection::NoExtension =>
            "File must have a valid markdown extension (.md, .markdown, .mdown, .mkd)"@,
        PathRejection::BadExtension => "Invalid file extension: "@ + detail
            + ". Only markdown files are allowed."@,
        PathRejection::Forbidden => "Access denied: Cannot read files from system directory "@
            + detail,
        PathRejection::Missing => "File does not exist: "@ + detail,
        PathRejection::NotAFile => "Path is not a file: "@ + detail,
    }
}

impl PathError {
    /// A human-readable account of the rejection.
    pub fn message(&self) -> (r: String)
        ensures
            r@ == rejection_message(self.reason, self.detail@),
    {
        let d = self.detail.as_str();
        match self.reason {
            PathRejection::Traversal => String::from_str(
                "Path traversal detected: '..' not allowed in file paths",
            ),
            PathRejection::NoWorkingDir => String::from_str("Failed to get current directory: ").concat(d),
            PathRejection::Unresolvable => String::from_str("Invalid file path: ").concat(d),
            PathRejection::NoExtension => String::from_str(
                "File must have a valid markdown extension (.md, .markdown, .mdown, .mkd)",
            ),
            PathRejection::BadExtension => String::from_str("Invalid file extension: ").concat(
                d,
            ).concat(". Only markdown files are allowed."),
            PathRejection::Forbidden => String::from_str(
                "Access denied: Cannot read files from system directory ",
            ).concat(d),
            PathRejection::Missing => String::from_str("File does not exist: ").concat(d),
            PathRejection::NotAFile => String::from_str("Path is not a file: ").concat(d),
        }
    }
}

/// The first check on a raw path, made before it is resolved: any `..`
/// rejects it.
pub fn check_traversal(raw: &str) -> (r: Result<(), PathError>)
    ensures
        r is Err <==> occurs(raw@, ".."@),
        r matches Err(e) ==> e.reason == PathRejection::Traversal && e.detail@ == Seq::<char>::empty(),
{
    let s = chars_of(raw);
    let dots = chars_of("..");
    if occurs_exec(&s, &dots) {
        Err(PathError { reason: PathRejection::Traversal, detail: String::new() })
    } else {
        Ok(())
    }
}

/// The index where the last component of `s` begins.
pub(crate) fn name_start_exec(s: &Vec<char>, platform: Platform) -> (r: usize)
    ensures
        r as int == name_start(s@, platform, s@.len() as int),
        r <= s@.len(),
{
    let mut i: usize = s.len();
    while i > 0 && !(s[i - 1] == '/' || (platform == Platform::Windows && s[i - 1] == '\\'))
        invariant
            i <= s@.len(),
            name_start(s@, platform, s@.len() as int) == name_start(s@, platform, i as int),
        decreases i,
    {
        i = i - 1;
    }
    i
}

fn last_dot_exec(s: &Vec<char>, from: usize) -> (r: Option<usize>)
    requires
        from <= s@.len(),
    ensures
        r matches Some(d) ==> from <= d < s@.len() && last_dot(s@.subrange(from as int, s@.len() as int), s@.len() - from) == Some(d - from),
        r is None ==> last_dot(s@.subrange(from as int, s@.len() as int), s@.len() - from) is None,
{
    let ghost n = s@.subrange(from as int, s@.len() as int);
    let mut i: usize = s.len();
    while i > from && s[i - 1] != '.'
        invariant
            from <= i <= s@.len(),
            n == s@.subrange(from as int, s@.len() as int),
            last_dot(n, s@.len() - from) == last_dot(n, i - from),
        decreases i,
    {
        assert(n[i - 1 - from] == s@[i - 1]);
        i = i - 1;
    }
    if i == from {
        None
    } else {
        assert(n[i - 1 - from] == s@[i - 1]);
        Some(i - 1)
    }
}

/// The extension of a canonical path, per the platform's separators.
pub fn extension_of(path: &str, platform: Platform) -> (r: Option<String>)
    ensures
        r matches Some(e) ==> path_extension(path@, platform) == Some(e@),
        r is None ==> path_extension(path@, platform) is None,
{
    let s = chars_of(path);
    let start = name_start_exec(&s, platform);
    let ghost n = s@.subrange(start as int, s@.len() as int);
    assert(file_name(path@, platform) == n);
    match last_dot_exec(&s, start) {
        None => None,
        Some(d) => {
            if d == start {
                None
            } else if d >= s.len() {
                None
            } else {
                let e = substring_of(&s, d + 1, s.len());
                assert(e@ =~= n.subrange(d - start + 1, n.len() as int));
                Some(e)
            }
        },
    }
}

fn is_markdown_extension_exec(lower: &str) -> (r: bool)
    ensures
        r == is_markdown_extension(lower@),
{
    same_text(lower, "md") || same_text(lower, "markdown") || same_text(lower, "mdown")
        || same_text(lower, "mkd")
}

fn denied_dirs_exec(platform: Platform) -> (r: Vec<String>)
    ensures
        r@.len() == denied_dirs(platform).len(),
        forall|i: int| 0 <= i < r@.len() ==> #[trigger] r@[i]@ == denied_dirs(platform)[i],
{
    let r = match platform {
        Platform::Posix => vec![
            String::from_str("/etc"),
            String::from_str("/proc"),
            String::from_str("/sys"),
            String::from_str("/dev"),
            String::from_str("/root"),
            String::from_str("/boot"),
            String::from_str("/var/log"),
        ],
        Platform::Windows => vec![
            String::from_str("c:\\windows"),
            String::from_str("c:\\program files"),
            String::from_str("c:\\program files (x86)"),
            String::from_str("c:\\users\\default"),
            String::from_str("c:\\programdata"),
        ],
    };
    r
}

fn first_denied_exec(lower: &str, platform: Platform) -> (r: Option<String>)
    ensures
        r matches Some(d) ==> first_denied(lower@, denied_dirs(platform), 0) == Some(d@),
        r is None ==> first_denied(lower@, denied_dirs(platform), 0) is None,
{
    let dirs = denied_dirs_exec(platform);
    let p = chars_of(lower);
    let ghost ds = denied_dirs(platform);
    let mut i: usize = 0;
    while i < dirs.len()
        invariant
            i <= dirs@.len(),
            p@ == lower@,
            ds == denied_dirs(platform),
            dirs@.len() == ds.len(),
            forall|k: int| 0 <= k < dirs@.len() ==> #[trigger] dirs@[k]@ == ds[k],
            first_denied(lower@, ds, 0) == first_denied(lower@, ds, i as int),
        decreases dirs@.len() - i,
    {
        let d = chars_of(dirs[i].as_str());
        assert(d@ == ds[i as int]);
        if occurs_at_exec(&p, &d, 0) {
            return Some(String::from_str(dirs[i].as_str()));
        }
        i = i + 1;
    }
    None
}

/// The checks on a canonical path, in order: markdown extension (compared
/// in lower case), deny-list of system directories (on the lower-cased
/// path), existence, regular file.
pub fn check_resolved(canonical: &str, platform: Platform, exists: bool, is_file: bool) -> (r:
    Result<(), PathError>)
    ensures
        r is Ok <==> resolved_verdict(canonical@, platform, exists, is_file) is None,
        r matches Err(e) ==> resolved_verdict(canonical@, platform, exists, is_file) == Some(
            (e.reason, e.detail@),
        ),
{
    let ext = match extension_of(canonical, platform) {
        None => {
            return Err(PathError { reason: PathRejection::NoExtension, detail: String::new() });
        },
        Some(e) => e,
    };
    let lower_ext = to_lower(ext.as_str());
    if !is_markdown_extension_exec(lower_ext.as_str()) {
        return Err(PathError { reason: PathRejection::BadExtension, detail: ext });
    }
    let lower = to_lower(canonical);
    match first_denied_exec(lower.as_str(), platform) {
        Some(d) => {
            return Err(PathError { reason: PathRejection::Forbidden, detail: d });
        },
        None => {},
    }
    if !exists {
        return Err(PathError { reason: PathRejection::Missing, detail: String::from_str(canonical) });
    }
    if !is_file {
        return Err(PathError { reason: PathRejection::NotAFile, detail: String::from_str(canonical) });
    }
    Ok(())
}


/// What resolving a raw path on disk found.
pub enum Resolution {
    /// The path was relative and the working directory could not be read.
    NoWorkingDir(String),
    /// Canonicalization failed, with the error's text.
    Unresolvable(String),
    /// The canonical path, whether anything exists there, and whether it
    /// is a regular file.
    Resolved { canonical: String, exists: bool, is_file: bool },
}

/// What validation decides once the path was resolved.
pub open spec fn resolution_verdict(resolution: Resolution, platform: Platform) -> Option<
    (PathRejection, Seq<char>),
> {
    match resolution {
        Resolution::NoWorkingDir(e) => Some((PathRejection::NoWorkingDir, e@)),
        Resolution::Unresolvable(e) => Some((PathRejection::Unresolvable, e@)),
        Resolution::Resolved { canonical, exists, is_file } => resolved_verdict(
            canonical@,
            platform,
            exists,
            is_file,
        ),
    }
}

/// Completes validation on what resolution found: a failure to resolve is
/// a rejection, else the checks on the canonical path decide; the
/// canonical path is returned when they pass.
pub fn finish_validation(resolution: Resolution, platform: Platform) -> (r: Result<
    String,
    PathError,
>)
    ensures
        r is Ok <==> resolution_verdict(resolution, platform) is None,
        r matches Ok(p) ==> resolution matches Resolution::Resolved { canonical, .. } && p@
            == canonical@,
        r matches Err(e) ==> resolution_verdict(resolution, platform) == Some(
            (e.reason, e.detail@),
        ),
{
    match resolution {
        Resolution::NoWorkingDir(e) => Err(PathError { reason: PathRejection::NoWorkingDir, detail: e }),
        Resolution::Unresolvable(e) => Err(PathError { reason: PathRejection::Unresolvable, detail: e }),
        Resolution::Resolved { canonical, exists, is_file } => {
            match check_resolved(canonical.as_str(), platform, exists, is_file) {
                Ok(()) => Ok(canonical),
                Err(e) => Err(e),
            }
        },
    }
}

/// The canonical path ends in a markdown extension (compared in lower
/// case).
pub open spec fn has_markdown_extension(canonical: Seq<char>, platform: Platform) -> bool {
    match path_extension(canonical, platform) {
        Some(e) => is_markdown_extension(lower_of(e)),
        None => false,
    }
}

/// A path without a markdown extension is rejected for its extension,
/// whether or not anything exists there and whatever it is.
pub proof fn lemma_extension_rejects_regardless(
    canonical: Seq<char>,
    platform: Platform,
    exists: bool,
    is_file: bool,
)
    requires
        !has_markdown_extension(canonical, platform),
    ensures
        resolved_verdict(canonical, platform, exists, is_file) matches Some((reason, _)) && (reason
            == PathRejection::NoExtension || reason == PathRejection::BadExtension),
        resolved_verdict(canonical, platform, exists, is_file) == resolved_verdict(
            canonical,
            platform,
            !exists,
            !is_file,
        ),
{
}

} // verus!
