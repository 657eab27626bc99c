//! Path validation for scenario and fixture IDs.
//!
//! Paths are read as on Unix: `/` separates components, a leading `/`
//! makes a path absolute, and a `.` component counts only where it leads
//! the path.

use crate::text::{chars_of, lemma_trimmed, push_str, string_of, trim, trimmed};
use vstd::prelude::*;

verus! {

/// Why a value is no clean relative path.
#[derive(Debug, Clone, Copy, PartialEq, Eq, Structural)]
pub enum PathError {
    /// The value is blank.
    Empty,
    /// The path begins at the root.
    Absolute,
    /// The path leads with `.` or holds `..`.
    InvalidComponent,
}

/// The path is `.` or begins with `./`.
pub open spec fn leads_with_cur_dir(path: Seq<char>) -> bool {
    path.len() >= 1 && path[0] == '.' && (path.len() == 1 || path[1] == '/')
}

/// A `..` component stands at index `i`.
pub open spec fn parent_at(path: Seq<char>, i: int) -> bool {
    &&& 0 <= i && i + 2 <= path.len()
    &&& path[i] == '.' && path[i + 1] == '.'
    &&& i == 0 || path[i - 1] == '/'
    &&& i + 2 == path.len() || path[i + 2] == '/'
}

/// Some component of the path is `..`.
pub open spec fn has_parent_dir(path: Seq<char>) -> bool {
    exists|i: int| parent_at(path, i)
}

/// The fault of a value as a relative path: it must not be blank, must not
/// begin at the root, and must hold neither a leading `.` nor any `..`.
pub open spec fn path_fault(value: Seq<char>) -> Option<PathError> {
    if trimmed(value).len() == 0 {
        Some(PathError::Empty)
    } else if value[0] == '/' {
        Some(PathError::Absolute)
    } else if leads_with_cur_dir(value) || has_parent_dir(value) {
        Some(PathError::InvalidComponent)
    } else {
        None
    }
}

fn parent_dir_in(path: &[char]) -> (b: bool)
    ensures
        b == has_parent_dir(path@),
{
    let n = path.len();
    let mut i: usize = 0;
    while i < n && i + 1 < n
        invariant
            i <= n,
            n == path.len(),
            forall|k: int| 0 <= k < i ==> !parent_at(path@, k),
        decreases n - i,
    {
        if path[i] == '.' && path[i + 1] == '.' && (i == 0 || path[i - 1] == '/') && (i + 2 == n
            || path[i + 2] == '/') {
            assert(parent_at(path@, i as int));
            return true;
        }
        i = i + 1;
    }
    false
}

/// Validate that a string is a clean, relative path without `.` or `..`.
pub fn validate_relative_path(value: &str) -> (r: Result<(), PathError>)
    ensures
        match r {
            Ok(_) => path_fault(value@) is None,
            Err(e) => path_fault(value@) == Some(e),
        },
{
    let chars = chars_of(value);
    let path = chars.as_slice();
    if trim(path).len() == 0 {
        return Err(PathError::Empty);
    }
    proof {
        lemma_trimmed(value@);
    }
    if path[0] == '/' {
        return Err(PathError::Absolute);
    }
    if path[0] == '.' && (path.len() == 1 || path[1] == '/') {
        return Err(PathError::InvalidComponent);
    }
    if parent_dir_in(path) {
        return Err(PathError::InvalidComponent);
    }
    Ok(())
}

pub open spec fn path_message(e: PathError) -> Seq<char> {
    match e {
        PathError::Empty => "value is empty"@,
        PathError::Absolute => "path must be relative"@,
        PathError::InvalidComponent => "path contains invalid component"@,
    }
}

impl PathError {
    /// The fault in words.
    pub fn message(&self) -> (text: &'static str)
        ensures
            text@ == path_message(*self),
    {
        match self {
            PathError::Empty => "value is empty",
            PathError::Absolute => "path must be relative",
            PathError::InvalidComponent => "path contains invalid component",
        }
    }
}

/// A relative path below a base, with one `/` between them where the base
/// does not end in one.
pub open spec fn joined_path(base: Seq<char>, path: Seq<char>) -> Seq<char> {
    if base.len() == 0 || base.last() == '/' {
        base + path
    } else {
        base + seq!['/'] + path
    }
}

/// Joins a relative path to a base.
pub fn join_path(base: &str, path: &str) -> (joined: String)
    ensures
        joined@ == joined_path(base@, path@),
{
    let mut buf = chars_of(base);
    if buf.len() > 0 && buf[buf.len() - 1] != '/' {
        buf.push('/');
    }
    push_str(&mut buf, path);
    assert(buf@ =~= joined_path(base@, path@));
    string_of(buf.as_slice())
}

/// The path as it is run: itself where it begins at the root, else below
/// the working directory.
pub open spec fn normalized(path: Seq<char>, cwd: Seq<char>) -> Seq<char> {
    if path.len() > 0 && path[0] == '/' {
        path
    } else {
        joined_path(cwd, path)
    }
}

/// Makes the path of a binary absolute against the working directory.
pub fn normalize_exec_path(path: &str, cwd: &str) -> (out: String)
    ensures
        out@ == normalized(path@, cwd@),
{
    let chars = chars_of(path);
    if chars.len() > 0 && chars[0] == '/' {
        path.to_owned()
    } else {
        join_path(cwd, path)
    }
}

} // verus!
