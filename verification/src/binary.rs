//! The binary under test as an input: what makes a path unfit to probe.

use crate::text::{chars_of, contains, contains_in, trim, trimmed};
use vstd::prelude::*;

verus! {

/// Why a target cannot be probed.
#[derive(Debug, Clone, Copy, PartialEq, Eq, Structural)]
pub enum InputError {
    /// No target was named.
    Empty,
    /// The target is not a regular file.
    NotRegularFile,
    /// Nobody may execute the target.
    NotExecutable,
}

/// The permission bits that let the owner, the group or others execute a
/// file.
pub const EXECUTE_BITS: u32 = 0o111;

/// The fault of a target that was found: it has to be a regular file with
/// at least one execute bit in its mode.
pub open spec fn input_fault(is_file: bool, mode: u32) -> Option<InputError> {
    if !is_file {
        Some(InputError::NotRegularFile)
    } else if mode & EXECUTE_BITS == 0 {
        Some(InputError::NotExecutable)
    } else {
        None
    }
}

/// Holds the metadata of a resolved target against what a probe needs.
pub fn check_binary(is_file: bool, mode: u32) -> (r: Result<(), InputError>)
    ensures
        match r {
            Ok(_) => input_fault(is_file, mode) is None,
            Err(e) => input_fault(is_file, mode) == Some(e),
        },
{
    if !is_file {
        return Err(InputError::NotRegularFile);
    }
    if mode & EXECUTE_BITS == 0 {
        return Err(InputError::NotExecutable);
    }
    Ok(())
}

/// Whether a target was named at all: a blank name names none.
pub fn check_binary_name(value: &str) -> (r: Result<(), InputError>)
    ensures
        match r {
            Ok(_) => trimmed(value@).len() > 0,
            Err(e) => e == InputError::Empty && trimmed(value@).len() == 0,
        },
{
    let chars = chars_of(value);
    if trim(chars.as_slice()).len() == 0 {
        Err(InputError::Empty)
    } else {
        Ok(())
    }
}

pub open spec fn input_message(e: InputError) -> Seq<char> {
    match e {
        InputError::Empty => "binary is empty"@,
        InputError::NotRegularFile => "binary is not a regular file"@,
        InputError::NotExecutable => "binary is not executable"@,
    }
}

impl InputError {
    /// The fault in words.
    pub fn message(&self) -> (text: &'static str)
        ensures
            text@ == input_message(*self),
    {
        match self {
            InputError::Empty => "binary is empty",
            InputError::NotRegularFile => "binary is not a regular file",
            InputError::NotExecutable => "binary is not executable",
        }
    }
}


/// How a target is named.
#[derive(Debug, Clone, Copy, PartialEq, Eq, Structural)]
pub enum InputKind {
    /// By a path: the value holds a `/`.
    Path,
    /// By a name to look up on the search path.
    Name,
}

/// Reads how a target is named; a blank value names none.
pub fn input_kind(value: &str) -> (r: Result<InputKind, InputError>)
    ensures
        r == (if trimmed(value@).len() == 0 {
            Err::<InputKind, InputError>(InputError::Empty)
        } else if contains(value@, "/"@) {
            Ok(InputKind::Path)
        } else {
            Ok(InputKind::Name)
        }),
{
    let chars = chars_of(value);
    if trim(chars.as_slice()).len() == 0 {
        return Err(InputError::Empty);
    }
    let slash = chars_of("/");
    if contains_in(chars.as_slice(), slash.as_slice()) {
        Ok(InputKind::Path)
    } else {
        Ok(InputKind::Name)
    }
}

} // verus!
