//! Values and rules of the directory listing and file search commands.
use vstd::prelude::*;
use crate::config::{join_path, join_path_seq};
use crate::text::{
    chars_of, contains_sub, eq_ignore_ascii_case, has_sub, lowercase_of, pieces_view,
    same_ignoring_ascii_case, slice_chars, starts_with, string_of, to_lowercase, trim_chars,
    trim_seq,
};

verus! {

/// How many hits a search returns where the caller names no limit.
pub const DEFAULT_FILE_SEARCH_LIMIT: usize = 60;

/// The most hits that a search returns.
pub const MAX_FILE_SEARCH_LIMIT: usize = 400;

/// How many directories a search reads in one round.
pub const FILE_SEARCH_MAX_CONCURRENCY: usize = 5;

/// One entry of a directory listing.
pub struct FileListEntry {
    pub name: String,
    pub path: String,
    pub is_directory: bool,
    pub is_file: bool,
    pub is_symbolic_link: bool,
    pub size: Option<u64>,
    pub modified_time: Option<i64>,
}

/// A directory listing.
pub struct DirectoryListResult {
    pub directory: String,
    pub path: String,
    pub entries: Vec<FileListEntry>,
}

/// The answer to a request to create a directory.
pub struct CreateDirectoryResponse {
    pub success: bool,
    pub path: String,
}

/// One file found by a search.
pub struct FileSearchHit {
    pub name: String,
    pub path: String,
    pub relative_path: String,
    pub extension: Option<String>,
}

/// The answer to a file search.
pub struct SearchFilesResponse {
    pub root: String,
    pub count: usize,
    pub files: Vec<FileSearchHit>,
}

/// Why a file command failed.
#[derive(Debug)]
pub enum FsCommandError {
    NotFound,
    AccessDenied,
    NotDirectory,
    OutsideWorkspace,
    Other(String),
}

impl FsCommandError {
    /// The message of a failed listing.
    pub fn to_list_message(&self) -> (r: String)
        ensures
            r@ == match *self {
                FsCommandError::NotFound => "Directory not found"@,
                FsCommandError::AccessDenied => "Access to directory denied"@,
                FsCommandError::OutsideWorkspace => "Access to directory denied"@,
                FsCommandError::NotDirectory => "Specified path is not a directory"@,
                FsCommandError::Other(_) => "Failed to list directory"@,
            },
    {
        match self {
            FsCommandError::NotFound => "Directory not found".to_owned(),
            FsCommandError::AccessDenied => "Access to directory denied".to_owned(),
            FsCommandError::OutsideWorkspace => "Access to directory denied".to_owned(),
            FsCommandError::NotDirectory => "Specified path is not a directory".to_owned(),
            FsCommandError::Other(_) => "Failed to list directory".to_owned(),
        }
    }

    /// The message of a failed search.
    pub fn to_search_message(&self) -> (r: String)
        ensures
            r@ == match *self {
                FsCommandError::NotFound => "Directory not found"@,
                FsCommandError::AccessDenied => "Access to directory denied"@,
                FsCommandError::OutsideWorkspace => "Access to directory denied"@,
                FsCommandError::NotDirectory => "Specified path is not a directory"@,
                FsCommandError::Other(_) => "Failed to search files"@,
            },
    {
        match self {
            FsCommandError::NotFound => "Directory not found".to_owned(),
            FsCommandError::AccessDenied => "Access to directory denied".to_owned(),
            FsCommandError::OutsideWorkspace => "Access to directory denied".to_owned(),
            FsCommandError::NotDirectory => "Specified path is not a directory".to_owned(),
            FsCommandError::Other(_) => "Failed to search files".to_owned(),
        }
    }

    /// The message of a failed creation.
    pub fn to_create_message(&self) -> (r: String)
        ensures
            r@ == match *self {
                FsCommandError::NotFound => "Parent directory not found"@,
                FsCommandError::AccessDenied => "Access to directory denied"@,
                FsCommandError::OutsideWorkspace => "Access to directory denied"@,
                FsCommandError::NotDirectory => "Parent path must be a directory"@,
                FsCommandError::Other(_) => "Failed to create directory"@,
            },
    {
        match self {
            FsCommandError::NotFound => "Parent directory not found".to_owned(),
            FsCommandError::AccessDenied => "Access to directory denied".to_owned(),
            FsCommandError::OutsideWorkspace => "Access to directory denied".to_owned(),
            FsCommandError::NotDirectory => "Parent path must be a directory".to_owned(),
            FsCommandError::Other(_) => "Failed to create directory".to_owned(),
        }
    }

    /// The error for a failed file operation: missing, forbidden, or
    /// anything else with its message.
    pub fn from_failure(not_found: bool, permission_denied: bool, message: String) -> (r: Self)
        ensures
            not_found ==> r is NotFound,
            !not_found && permission_denied ==> r is AccessDenied,
            !not_found && !permission_denied ==> r == FsCommandError::Other(message),
    {
        if not_found {
            FsCommandError::NotFound
        } else if permission_denied {
            FsCommandError::AccessDenied
        } else {
            FsCommandError::Other(message)
        }
    }
}

/// The limit of a search: the one asked for, 60 where none is, held
/// between 1 and 400.
pub fn clamp_search_limit(value: Option<usize>) -> (r: usize)
    ensures
        r == match value {
            Some(v) => if v < 1 {
                1
            } else if v > 400 {
                400
            } else {
                v
            },
            None => 60usize,
        },
{
    let limit = match value {
        Some(v) => v,
        None => DEFAULT_FILE_SEARCH_LIMIT,
    };
    if limit < 1 {
        1
    } else if limit > MAX_FILE_SEARCH_LIMIT {
        MAX_FILE_SEARCH_LIMIT
    } else {
        limit
    }
}

/// The names of the directories that a search never enters.
pub open spec fn excluded_dirs() -> Seq<Seq<char>> {
    seq![
        "node_modules"@,
        ".git"@,
        "dist"@,
        "build"@,
        ".next"@,
        ".turbo"@,
        ".cache"@,
        "coverage"@,
        "tmp"@,
        "logs"@,
    ]
}

/// Whether a search leaves a directory of this name out: a hidden one, or
/// one of the excluded names in any ASCII case.
pub open spec fn skips_directory(name: Seq<char>) -> bool {
    (name.len() > 0 && name[0] == '.') || exists|i: int|
        0 <= i < excluded_dirs().len() && same_ignoring_ascii_case(
            #[trigger] excluded_dirs()[i],
            name,
        )
}

/// Whether a search leaves a directory of this name out.
pub fn should_skip_directory(name: &str) -> (r: bool)
    ensures
        r == skips_directory(name@),
{
    let chars = chars_of(name);
    if chars.len() > 0 && chars[0] == '.' {
        return true;
    }
    let mut names: Vec<Vec<char>> = Vec::new();
    names.push(chars_of("node_modules"));
    names.push(chars_of(".git"));
    names.push(chars_of("dist"));
    names.push(chars_of("build"));
    names.push(chars_of(".next"));
    names.push(chars_of(".turbo"));
    names.push(chars_of(".cache"));
    names.push(chars_of("coverage"));
    names.push(chars_of("tmp"));
    names.push(chars_of("logs"));
    assert(pieces_view(names@) =~= excluded_dirs());
    let mut i: usize = 0;
    while i < names.len()
        invariant
            i <= names.len(),
            pieces_view(names@) == excluded_dirs(),
            forall|k: int| 0 <= k < i ==> !same_ignoring_ascii_case(excluded_dirs()[k], name@),
            chars@ == name@,
        decreases names.len() - i,
    {
        assert(pieces_view(names@)[i as int] == names@[i as int]@);
        if eq_ignore_ascii_case(&names[i], &chars) {
            return true;
        }
        i += 1;
    }
    false
}

/// `path` with every backslash turned into a slash.
pub open spec fn normalize_path_seq(path: Seq<char>) -> Seq<char> {
    Seq::new(
        path.len(),
        |i: int|
            if path[i] == '\\' {
                '/'
            } else {
                path[i]
            },
    )
}

/// Writes a path with slashes only.
pub fn normalize_path(path: &str) -> (r: String)
    ensures
        r@ == normalize_path_seq(path@),
{
    let chars = chars_of(path);
    let mut out: Vec<char> = Vec::new();
    let mut i: usize = 0;
    while i < chars.len()
        invariant
            i <= chars.len(),
            out@ == normalize_path_seq(chars@).take(i as int),
        decreases chars.len() - i,
    {
        let c = chars[i];
        out.push(if c == '\\' {
            '/'
        } else {
            c
        });
        i += 1;
        assert(out@ =~= normalize_path_seq(chars@).take(i as int));
    }
    assert(normalize_path_seq(chars@).take(chars.len() as int) =~= normalize_path_seq(chars@));
    string_of(&out)
}

/// `s` without the slashes at its start.
pub open spec fn strip_leading_slashes(s: Seq<char>) -> Seq<char>
    decreases s.len(),
{
    if s.len() > 0 && s[0] == '/' {
        strip_leading_slashes(s.drop_first())
    } else {
        s
    }
}

/// Whether the slash-separated path `target` lies at or under `root`:
/// `root` is a prefix of it that ends where a component ends.
pub open spec fn lies_under(root: Seq<char>, target: Seq<char>) -> bool {
    root.is_prefix_of(target) && (target.len() == root.len() || target[root.len() as int] == '/'
        || (root.len() > 0 && root.last() == '/'))
}

/// The path of `target` as seen from `root`, with slashes only: what
/// follows `root` where `target` lies under it, else all of `target`.
pub open spec fn relative_path_seq(root: Seq<char>, target: Seq<char>) -> Seq<char> {
    if lies_under(root, target) {
        normalize_path_seq(strip_leading_slashes(target.skip(root.len() as int)))
    } else {
        normalize_path_seq(target)
    }
}

/// The path of `target` relative to `root`.
pub fn relative_path(root: &str, target: &str) -> (r: String)
    ensures
        r@ == relative_path_seq(root@, target@),
{
    let base = chars_of(root);
    let full = chars_of(target);
    let under = starts_with(&full, &base) && (full.len() == base.len() || full[base.len()] == '/'
        || (base.len() > 0 && base[base.len() - 1] == '/'));
    if !under {
        return normalize_path(target);
    }
    let mut start: usize = base.len();
    assert(full@.subrange(start as int, full.len() as int) =~= full@.skip(base.len() as int));
    while start < full.len() && full[start] == '/'
        invariant
            base.len() <= start <= full.len(),
            strip_leading_slashes(full@.skip(base.len() as int)) == strip_leading_slashes(
                full@.subrange(start as int, full.len() as int),
            ),
        decreases full.len() - start,
    {
        assert(full@.subrange(start as int, full.len() as int).drop_first() =~= full@.subrange(
            start + 1,
            full.len() as int,
        ));
        start += 1;
    }
    let rest = string_of(&slice_chars(&full, start, full.len()));
    normalize_path(rest.as_str())
}


/// Whether the path given with a request names something: it is there and
/// not blank.
pub open spec fn names_a_path(path: Option<Seq<char>>) -> bool {
    path matches Some(p) && trim_seq(p).len() > 0
}

/// The path that a listing or a search starts from, before it is resolved
/// on disk: the path of the request, without the white space at its ends,
/// taken from the workspace root, or from the home directory where there is
/// no workspace; the workspace root, or the home directory, where the
/// request names none.
pub open spec fn sandbox_candidate(
    path: Option<Seq<char>>,
    workspace_root: Option<Seq<char>>,
    home: Seq<char>,
) -> Seq<char> {
    let base = match workspace_root {
        Some(root) => root,
        None => home,
    };
    if names_a_path(path) {
        join_path_seq(base, trim_seq(path->0))
    } else {
        base
    }
}

/// Finds the path that a listing or a search starts from.
pub fn resolve_sandboxed_path(path: Option<&str>, workspace_root: Option<&str>, home: &str) -> (r:
    String)
    ensures
        r@ == sandbox_candidate(
            match path {
                Some(p) => Some(p@),
                None => None,
            },
            match workspace_root {
                Some(w) => Some(w@),
                None => None,
            },
            home@,
        ),
{
    let base = match workspace_root {
        Some(root) => root,
        None => home,
    };
    match path {
        Some(p) => {
            let trimmed = trim_chars(&chars_of(p));
            if trimmed.len() > 0 {
                join_path(base, string_of(&trimmed).as_str())
            } else {
                string_of(&chars_of(base))
            }
        },
        None => string_of(&chars_of(base)),
    }
}

/// The directory to create, before its parent is resolved on disk: the
/// path of the request taken from the workspace root, or from the home
/// directory where there is no workspace. An empty path is refused.
pub fn resolve_creatable_path(path: &str, workspace_root: Option<&str>, home: &str) -> (r: Result<
    String,
    FsCommandError,
>)
    ensures
        path@.len() == 0 ==> (r matches Err(FsCommandError::Other(message)) && message@
            == "Path is required"@),
        path@.len() > 0 ==> (r matches Ok(p) && p@ == join_path_seq(
            match workspace_root {
                Some(w) => w@,
                None => home@,
            },
            path@,
        )),
{
    if path.unicode_len() == 0 {
        return Err(FsCommandError::Other("Path is required".to_owned()));
    }
    let base = match workspace_root {
        Some(root) => root,
        None => home,
    };
    Ok(join_path(base, path))
}

/// Holds a resolved path to the workspace: one that does not lie at or
/// under the workspace root is outside; without a workspace every path is
/// inside.
pub fn check_within_workspace(resolved: &str, workspace_root: Option<&str>) -> (r: Result<
    (),
    FsCommandError,
>)
    ensures
        r is Ok <==> (workspace_root matches Some(root) ==> lies_under(root@, resolved@)),
        r matches Err(e) ==> e is OutsideWorkspace,
{
    match workspace_root {
        None => Ok(()),
        Some(root) => {
            let base = chars_of(root);
            let full = chars_of(resolved);
            let under = starts_with(&full, &base) && (full.len() == base.len() || full[base.len()]
                == '/' || (base.len() > 0 && base[base.len() - 1] == '/'));
            if under {
                Ok(())
            } else {
                Err(FsCommandError::OutsideWorkspace)
            }
        },
    }
}

/// The form in which a search query is compared: without the white space
/// at its ends, in lower case.
pub fn normalize_query(query: Option<&str>) -> (r: String)
    ensures
        r@ == match query {
            Some(q) => lowercase_of(trim_seq(q@)),
            None => lowercase_of(Seq::empty()),
        },
{
    let raw = match query {
        Some(q) => string_of(&trim_chars(&chars_of(q))),
        None => String::new(),
    };
    to_lowercase(raw.as_str())
}

/// Whether a file is a hit, given its name and relative path in lower
/// case: every file is one for the empty query; otherwise the name or the
/// path holds the query.
pub fn lowercase_matches_query(name: &str, relative: &str, query: &str) -> (r: bool)
    ensures
        r == (query@.len() == 0 || has_sub(name@, query@) || has_sub(relative@, query@)),
{
    let needle = chars_of(query);
    if needle.len() == 0 {
        return true;
    }
    contains_sub(&chars_of(name), &needle) || contains_sub(&chars_of(relative), &needle)
}

/// Whether a file is a hit of a search for the normalized query.
pub fn matches_query(name: &str, relative: &str, query: &str) -> (r: bool)
    ensures
        r == (query@.len() == 0 || has_sub(lowercase_of(name@), query@) || has_sub(
            lowercase_of(relative@),
            query@,
        )),
{
    if query.unicode_len() == 0 {
        return true;
    }
    let lower_name = to_lowercase(name);
    let lower_path = to_lowercase(relative);
    lowercase_matches_query(lower_name.as_str(), lower_path.as_str(), query)
}

/// Whether a search looks at a directory entry of this name at all: not
/// at one without a name, nor at a hidden one.
pub fn is_visible_entry(name: &str) -> (r: bool)
    ensures
        r == (name@.len() > 0 && name@[0] != '.'),
{
    let chars = chars_of(name);
    chars.len() > 0 && chars[0] != '.'
}

} // verus!
