//! Marker tables: the fixed substrings that name a class of diagnostic.

use crate::text::{chars_of, contains, contains_in, views};
use vstd::prelude::*;

verus! {

/// Markers of an option that the binary does not know.
pub const UNRECOGNIZED_MARKERS: [&'static str; 9] = [
    "unrecognized option",
    "unknown option",
    "invalid option",
    "illegal option",
    "unknown flag",
    "unrecognized flag",
    "invalid flag",
    "unknown switch",
    "invalid switch",
];

/// Markers of an option prefix that fits several options.
pub const AMBIGUOUS_MARKERS: [&'static str; 2] = ["ambiguous option", "option is ambiguous"];

/// Markers of any trouble with an argument: the missing-argument markers and `invalid argument`.
pub const ARGUMENT_ERROR_MARKERS: [&'static str; 7] = [
    "requires an argument",
    "requires a value",
    "option requires an argument",
    "option requires a value",
    "missing argument",
    "missing value",
    "invalid argument",
];

/// Markers of an option that lacks its argument.
pub const MISSING_ARGUMENT_MARKERS: [&'static str; 6] = [
    "requires an argument",
    "requires a value",
    "option requires an argument",
    "option requires a value",
    "missing argument",
    "missing value",
];

/// Markers of an option that was given an argument it does not take.
pub const ARGUMENT_NOT_ALLOWED_MARKERS: [&'static str; 14] = [
    "doesn't allow an argument",
    "does not allow an argument",
    "doesn't allow a value",
    "does not allow a value",
    "doesn't take an argument",
    "does not take an argument",
    "doesn't take a value",
    "does not take a value",
    "doesn't accept an argument",
    "does not accept an argument",
    "takes no argument",
    "takes no value",
    "argument not allowed",
    "value not allowed",
];

/// Markers of an argument that the option rejects.
pub const INVALID_ARGUMENT_MARKERS: [&'static str; 2] = ["invalid argument", "invalid value"];

/// What help-like output contains.
pub const HELP_MARKER: &'static str = "usage:";

/// The first of `markers`, from index `i` on, that occurs in `output`.
pub open spec fn first_marker_from(output: Seq<char>, markers: Seq<Seq<char>>, i: int) -> Option<
    Seq<char>,
>
    decreases markers.len() - i,
{
    if 0 <= i < markers.len() {
        if contains(output, markers[i]) {
            Some(markers[i])
        } else {
            first_marker_from(output, markers, i + 1)
        }
    } else {
        None
    }
}

/// The first of `markers` that occurs in `output`.
pub open spec fn first_marker(output: Seq<char>, markers: Seq<Seq<char>>) -> Option<Seq<char>> {
    first_marker_from(output, markers, 0)
}

/// Some marker of the table occurs in `output`.
pub open spec fn has_marker(output: Seq<char>, markers: Seq<Seq<char>>) -> bool {
    exists|i: int| 0 <= i < markers.len() && contains(output, #[trigger] markers[i])
}

proof fn lemma_first_marker_from(output: Seq<char>, markers: Seq<Seq<char>>, i: int)
    requires
        0 <= i,
    ensures
        first_marker_from(output, markers, i) is Some <==> exists|j: int|
            i <= j < markers.len() && contains(output, #[trigger] markers[j]),
    decreases markers.len() - i,
{
    if i < markers.len() && !contains(output, markers[i]) {
        lemma_first_marker_from(output, markers, i + 1);
    }
}

/// A first marker is found exactly when some marker occurs.
pub proof fn lemma_first_marker(output: Seq<char>, markers: Seq<Seq<char>>)
    ensures
        first_marker(output, markers) is Some <==> has_marker(output, markers),
{
    lemma_first_marker_from(output, markers, 0);
}

/// Finds the first marker of the table that occurs in the lower-cased output.
pub fn find_marker(output: &[char], markers: &[&'static str]) -> (found: Option<&'static str>)
    ensures
        match found {
            Some(marker) => first_marker(output@, views(markers@)) == Some(marker@),
            None => first_marker(output@, views(markers@)) is None,
        },
{
    let mut i: usize = 0;
    while i < markers.len()
        invariant
            i <= markers.len(),
            first_marker_from(output@, views(markers@), i as int) == first_marker(
                output@,
                views(markers@),
            ),
        decreases markers.len() - i,
    {
        let marker = chars_of(markers[i]);
        if contains_in(output, marker.as_slice()) {
            return Some(markers[i]);
        }
        i = i + 1;
    }
    None
}

/// Whether some marker of the table occurs in the lower-cased output.
pub fn contains_any(output: &[char], markers: &[&'static str]) -> (b: bool)
    ensures
        b == has_marker(output@, views(markers@)),
{
    proof {
        lemma_first_marker(output@, views(markers@));
    }
    find_marker(output, markers).is_some()
}

} // verus!
