//! Regular-expression captures, taken from the `regex` crate.

use crate::text::views;
use vstd::prelude::*;

verus! {

/// What the first capture group holds in each match of `pattern` in `text`,
/// match by match from left to right: `None` for the whole where the pattern
/// does not compile, `None` for a match in which the group took no part.
pub uninterp spec fn group_matches(pattern: Seq<char>, text: Seq<char>) -> Option<
    Seq<Option<Seq<char>>>,
>;

pub open spec fn group_view(capture: Option<String>) -> Option<Seq<char>> {
    match capture {
        Some(s) => Some(s@),
        None => None,
    }
}

pub open spec fn groups_view(found: Option<Vec<Option<String>>>) -> Option<Seq<Option<Seq<char>>>> {
    match found {
        Some(v) => Some(v@.map_values(|c: Option<String>| group_view(c))),
        None => None,
    }
}

/// Compiles `pattern` with `regex::Regex::new` and walks its matches in
/// `text` with `Regex::captures_iter`, taking group 1 of each with
/// `Captures::get`. The result depends on the two texts alone.
#[verifier::external_body]
pub(crate) fn first_groups(pattern: &str, text: &str) -> (found: Option<Vec<Option<String>>>)
    ensures
        groups_view(found) == group_matches(pattern@, text@),
{
    match regex::Regex::new(pattern) {
        Ok(re) => Some(
            re.captures_iter(text).map(|c| c.get(1).map(|m| m.as_str().to_string())).collect(),
        ),
        Err(_) => None,
    }
}

/// The texts that the first group captured, one per match; an absent group
/// counts as the empty text, and a pattern that does not compile matches
/// nothing.
pub open spec fn group_texts(pattern: Seq<char>, text: Seq<char>) -> Seq<Seq<char>> {
    captured_texts(group_matches(pattern, text))
}

pub open spec fn captured_texts(found: Option<Seq<Option<Seq<char>>>>) -> Seq<Seq<char>> {
    match found {
        Some(groups) => groups.map_values(
            |g: Option<Seq<char>>|
                match g {
                    Some(t) => t,
                    None => Seq::<char>::empty(),
                },
        ),
        None => Seq::<Seq<char>>::empty(),
    }
}

/// The captured texts of what `first_groups` found.
pub fn texts_of(found: Option<Vec<Option<String>>>) -> (texts: Vec<String>)
    ensures
        views(texts@) == captured_texts(groups_view(found)),
{
    let mut texts: Vec<String> = Vec::new();
    if let Some(groups) = found {
        let ghost all = groups@;
        for group in it: groups
            invariant
                it.seq() == all,
                texts@.len() == it.index(),
                forall|j: int|
                    0 <= j < it.index() ==> (#[trigger] texts@[j])@ == match all[j] {
                        Some(t) => t@,
                        None => Seq::<char>::empty(),
                    },
        {
            let text = match group {
                Some(t) => t,
                None => String::new(),
            };
            texts.push(text);
        }
    }
    texts
}

/// The first-group captures of `pattern` in `text`.
pub fn captures(pattern: &str, text: &str) -> (texts: Vec<String>)
    ensures
        views(texts@) == group_texts(pattern@, text@),
{
    texts_of(first_groups(pattern, text))
}

} // verus!
