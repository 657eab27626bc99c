//! Attribution: the option tokens that a diagnostic names.

use crate::pattern::{captures, group_texts};
use crate::text::{chars_of, lemma_views_push, string_of, views};
use vstd::prelude::*;

verus! {

/// `unrecognized option '--x'` and its kin: the token after the marker.
pub const UNRECOGNIZED_DIRECT: &'static str =
    r#"(?i)(?:unrecognized|unknown|invalid|illegal)\s+(?:option|flag|switch)(?:\s+|[:=])\s*['"`]?([^\s'"`]+)"#;

/// `invalid option -- 'x'`: the letter of a short option.
pub const UNRECOGNIZED_GETOPT: &'static str =
    r#"(?i)(?:invalid|illegal|unknown|unrecognized)\s+option\s+--\s*['"]?([A-Za-z0-9])['"]?"#;

/// `option '--x' requires an argument`.
pub const MISSING_DIRECT: &'static str =
    r#"(?i)(?:option|flag|switch)\s+['"`]?([^\s'"`]+)['"`]?\s+requires\s+(?:an?\s+)?(?:argument|value)"#;

/// `missing argument for '--x'`.
pub const MISSING_FOR: &'static str =
    r#"(?i)missing\s+(?:argument|value)\s+for\s+['"`]?([^\s'"`]+)['"`]?"#;

/// `requires an argument for '--x'`.
pub const MISSING_REQUIRED_FOR: &'static str =
    r#"(?i)requires\s+(?:an?\s+)?(?:argument|value)\s+for\s+['"`]?([^\s'"`]+)['"`]?"#;

/// `option requires an argument -- 'x'`.
pub const MISSING_GETOPT: &'static str =
    r#"(?i)option\s+requires\s+(?:an?\s+)?(?:argument|value)\s+--\s*['"]?([A-Za-z0-9])['"]?"#;

/// `option '--x' doesn't allow an argument`.
pub const NOT_ALLOWED_DIRECT: &'static str =
    r#"(?i)option\s+['"`]?([^\s'"`]+)['"`]?\s+does(?:n't| not)\s+(?:allow|take|accept)\s+(?:an?\s+)?(?:argument|value)"#;

/// `option '--x' takes no argument`.
pub const NOT_ALLOWED_TAKES_NO: &'static str =
    r#"(?i)option\s+['"`]?([^\s'"`]+)['"`]?\s+takes?\s+no\s+(?:argument|value)"#;

/// `argument not allowed for '--x'`.
pub const NOT_ALLOWED_FOR: &'static str =
    r#"(?i)(?:argument|value)\s+not\s+allowed\s+for\s+['"`]?([^\s'"`]+)['"`]?"#;

/// `invalid argument 'v' for '--x'`.
pub const INVALID_FOR: &'static str =
    r#"(?i)invalid\s+(?:argument|value)\s+['"`]?[^'"`]+['"`]?\s+for\s+['"`]?([^\s'"`]+)['"`]?"#;

/// Punctuation that may wrap a reported token.
pub open spec fn is_wrap_char(c: char) -> bool {
    c == ',' || c == ';' || c == ':' || c == '.' || c == ')' || c == ']' || c == '('
}

pub fn wrap_char(c: char) -> (b: bool)
    ensures
        b == is_wrap_char(c),
{
    c == ',' || c == ';' || c == ':' || c == '.' || c == ')' || c == ']' || c == '('
}

/// The first index at or after `i` that holds no wrapping punctuation.
pub open spec fn wrap_start(t: Seq<char>, i: int) -> int
    decreases t.len() - i,
{
    if 0 <= i < t.len() && is_wrap_char(t[i]) {
        wrap_start(t, i + 1)
    } else {
        i
    }
}

/// The end of `t[..j]` once wrapping punctuation is dropped from its end,
/// going no further back than `low`.
pub open spec fn wrap_end(t: Seq<char>, low: int, j: int) -> int
    decreases j,
{
    if low < j <= t.len() && 0 < j && is_wrap_char(t[j - 1]) {
        wrap_end(t, low, j - 1)
    } else {
        j
    }
}

/// `t` without wrapping punctuation at either end.
pub open spec fn clean_token(t: Seq<char>) -> Seq<char> {
    let a = wrap_start(t, 0);
    t.subrange(a, wrap_end(t, a, t.len() as int))
}

/// Drops the punctuation that wraps a reported token.
pub fn clean_option_token(token: &[char]) -> (cleaned: &[char])
    ensures
        cleaned@ == clean_token(token@),
{
    let mut a: usize = 0;
    while a < token.len() && wrap_char(token[a])
        invariant
            a <= token.len(),
            wrap_start(token@, a as int) == wrap_start(token@, 0),
        decreases token.len() - a,
    {
        a = a + 1;
    }
    let mut b: usize = token.len();
    while b > a && wrap_char(token[b - 1])
        invariant
            a <= b <= token.len(),
            wrap_end(token@, a as int, b as int) == wrap_end(token@, a as int, token.len() as int),
        decreases b,
    {
        b = b - 1;
    }
    &token[a..b]
}

/// A cleaned token is kept unless it is empty, `-` or `--`.
pub open spec fn is_kept(t: Seq<char>) -> bool {
    t.len() > 0 && t != "-"@ && t != "--"@
}

fn kept(t: &[char]) -> (b: bool)
    ensures
        b == is_kept(t@),
{
    proof {
        reveal_strlit("-");
        reveal_strlit("--");
    }
    if t.len() == 0 {
        return false;
    }
    if t.len() == 1 && t[0] == '-' {
        assert(t@ =~= "-"@);
        return false;
    }
    if t.len() == 2 && t[0] == '-' && t[1] == '-' {
        assert(t@ =~= "--"@);
        return false;
    }
    true
}

/// The cleaned tokens of the first `n` captures that are kept, in order.
pub open spec fn cleaned_upto(found: Seq<Seq<char>>, n: int) -> Seq<Seq<char>>
    decreases n,
{
    if n <= 0 {
        seq![]
    } else if is_kept(clean_token(found[n - 1])) {
        cleaned_upto(found, n - 1).push(clean_token(found[n - 1]))
    } else {
        cleaned_upto(found, n - 1)
    }
}

/// The cleaned tokens of the captures that are kept, in order.
pub open spec fn cleaned(found: Seq<Seq<char>>) -> Seq<Seq<char>> {
    cleaned_upto(found, found.len() as int)
}

/// Each non-empty capture of the first `n` with `-` before it, in order.
pub open spec fn dashed_upto(found: Seq<Seq<char>>, n: int) -> Seq<Seq<char>>
    decreases n,
{
    if n <= 0 {
        seq![]
    } else if found[n - 1].len() > 0 {
        dashed_upto(found, n - 1).push(seq!['-'] + found[n - 1])
    } else {
        dashed_upto(found, n - 1)
    }
}

/// Each non-empty capture with `-` before it, in order.
pub open spec fn dashed(found: Seq<Seq<char>>) -> Seq<Seq<char>> {
    dashed_upto(found, found.len() as int)
}

/// Appends to `options` the tokens that `found` names directly.
pub fn push_cleaned(found: &Vec<String>, options: &mut Vec<String>)
    ensures
        views(final(options)@) == views(old(options)@) + cleaned(views(found@)),
{
    let mut i: usize = 0;
    while i < found.len()
        invariant
            i <= found.len(),
            views(options@) == views(old(options)@) + cleaned_upto(views(found@), i as int),
        decreases found.len() - i,
    {
        let token = chars_of(found[i].as_str());
        let cleaned = clean_option_token(token.as_slice());
        if kept(cleaned) {
            let option = string_of(cleaned);
            proof {
                lemma_views_push(options@, option);
            }
            options.push(option);
            assert(views(options@) =~= views(old(options)@) + cleaned_upto(
                views(found@),
                i + 1,
            ));
        }
        i = i + 1;
    }
}

/// Appends to `options` the short options whose letters `found` holds.
pub fn push_dashed(found: &Vec<String>, options: &mut Vec<String>)
    ensures
        views(final(options)@) == views(old(options)@) + dashed(views(found@)),
{
    let mut i: usize = 0;
    while i < found.len()
        invariant
            i <= found.len(),
            views(options@) == views(old(options)@) + dashed_upto(views(found@), i as int),
        decreases found.len() - i,
    {
        let letter = chars_of(found[i].as_str());
        if letter.len() > 0 {
            let mut token: Vec<char> = Vec::new();
            token.push('-');
            crate::text::push_all(&mut token, letter.as_slice());
            let option = string_of(token.as_slice());
            proof {
                lemma_views_push(options@, option);
            }
            options.push(option);
        }
        i = i + 1;
    }
}

/// The options that unrecognized-option diagnostics in `output` name.
pub open spec fn reported_options(output: Seq<char>) -> Seq<Seq<char>> {
    cleaned(group_texts(UNRECOGNIZED_DIRECT@, output)) + dashed(
        group_texts(UNRECOGNIZED_GETOPT@, output),
    )
}

/// The options that missing-argument diagnostics in `output` name.
pub open spec fn missing_argument_options(output: Seq<char>) -> Seq<Seq<char>> {
    cleaned(group_texts(MISSING_DIRECT@, output)) + cleaned(group_texts(MISSING_FOR@, output))
        + cleaned(group_texts(MISSING_REQUIRED_FOR@, output)) + dashed(
        group_texts(MISSING_GETOPT@, output),
    )
}

/// The options that argument-not-allowed diagnostics in `output` name.
pub open spec fn argument_not_allowed_options(output: Seq<char>) -> Seq<Seq<char>> {
    cleaned(group_texts(NOT_ALLOWED_DIRECT@, output)) + cleaned(
        group_texts(NOT_ALLOWED_TAKES_NO@, output),
    ) + cleaned(group_texts(NOT_ALLOWED_FOR@, output))
}

/// The options that invalid-argument diagnostics in `output` name.
pub open spec fn invalid_argument_options(output: Seq<char>) -> Seq<Seq<char>> {
    cleaned(group_texts(INVALID_FOR@, output))
}

/// Extracts the options that unrecognized-option diagnostics name.
pub fn extract_reported_options(output: &str) -> (options: Vec<String>)
    ensures
        views(options@) == reported_options(output@),
{
    let mut options: Vec<String> = Vec::new();
    let direct = captures(UNRECOGNIZED_DIRECT, output);
    push_cleaned(&direct, &mut options);
    let getopt = captures(UNRECOGNIZED_GETOPT, output);
    push_dashed(&getopt, &mut options);
    options
}

/// Extracts the options that missing-argument diagnostics name.
pub fn extract_missing_argument_options(output: &str) -> (options: Vec<String>)
    ensures
        views(options@) == missing_argument_options(output@),
{
    let mut options: Vec<String> = Vec::new();
    let direct = captures(MISSING_DIRECT, output);
    push_cleaned(&direct, &mut options);
    let missing = captures(MISSING_FOR, output);
    push_cleaned(&missing, &mut options);
    let required_for = captures(MISSING_REQUIRED_FOR, output);
    push_cleaned(&required_for, &mut options);
    let getopt = captures(MISSING_GETOPT, output);
    push_dashed(&getopt, &mut options);
    options
}

/// Extracts the options that argument-not-allowed diagnostics name.
pub fn extract_argument_not_allowed_options(output: &str) -> (options: Vec<String>)
    ensures
        views(options@) == argument_not_allowed_options(output@),
{
    let mut options: Vec<String> = Vec::new();
    let direct = captures(NOT_ALLOWED_DIRECT, output);
    push_cleaned(&direct, &mut options);
    let takes_no = captures(NOT_ALLOWED_TAKES_NO, output);
    push_cleaned(&takes_no, &mut options);
    let not_allowed = captures(NOT_ALLOWED_FOR, output);
    push_cleaned(&not_allowed, &mut options);
    options
}

/// Extracts the options that invalid-argument diagnostics name.
pub fn extract_invalid_argument_options(output: &str) -> (options: Vec<String>)
    ensures
        views(options@) == invalid_argument_options(output@),
{
    let mut options: Vec<String> = Vec::new();
    let invalid = captures(INVALID_FOR, output);
    push_cleaned(&invalid, &mut options);
    options
}

} // verus!
