//! Evidence bundles: how a run is named.

use crate::text::{
    chars_of, decimal_digits, is_ascii_alnum, push_all, push_str, push_unsigned, string_of, trim,
    trimmed,
};
use vstd::prelude::*;

verus! {

/// Tool version emitted in evidence metadata.
pub const TOOL_VERSION: &'static str = "0.7.0";

/// Evidence directory name used under the output root.
pub const EVIDENCE_DIR: &'static str = "evidence";

/// The longest sanitized label.
pub const LABEL_MAX_LEN: usize = 32;

/// The number of characters of a scenario hash that name a run.
pub const SHORT_HASH_LEN: usize = 12;

/// The lower-case form of an ASCII letter; any other character is itself.
pub open spec fn ascii_lower(c: char) -> char {
    if 'A' <= c && c <= 'Z' {
        ((c as u8) + 32) as char
    } else {
        c
    }
}

fn to_ascii_lower(c: char) -> (l: char)
    ensures
        l == ascii_lower(c),
{
    if 'A' <= c && c <= 'Z' {
        ((c as u8) + 32) as char
    } else {
        c
    }
}

/// What a character of a label becomes: letters in lower case, digits, `-`
/// and `_` themselves, anything else `_`.
pub open spec fn label_char(c: char) -> char {
    if is_ascii_alnum(c) || c == '-' || c == '_' {
        ascii_lower(c)
    } else {
        '_'
    }
}

/// The label after its first `n` characters: each mapped, a run of `_`
/// kept as one, and nothing more taken once 32 characters are held.
pub open spec fn label_upto(label: Seq<char>, n: int) -> Seq<char>
    decreases n,
{
    if n <= 0 {
        Seq::<char>::empty()
    } else {
        let before = label_upto(label, n - 1);
        let mapped = label_char(label[n - 1]);
        if before.len() >= LABEL_MAX_LEN {
            before
        } else if mapped == '_' && ends_run(label, n - 1) {
            before
        } else {
            before.push(mapped)
        }
    }
}

/// The character before index `n` was itself mapped to `_`.
pub open spec fn ends_run(label: Seq<char>, n: int) -> bool {
    n > 0 && label_char(label[n - 1]) == '_'
}

/// The end of `text[..j]` once trailing `_` are dropped.
pub open spec fn underscore_end(text: Seq<char>, j: int) -> int
    decreases j,
{
    if 0 < j <= text.len() && text[j - 1] == '_' {
        underscore_end(text, j - 1)
    } else {
        j
    }
}

/// The sanitized form of a label: mapped character by character, cut at 32
/// characters, without `_` at its end, and `run` where nothing is left.
pub open spec fn sanitized(label: Seq<char>) -> Seq<char> {
    let mapped = label_upto(label, label.len() as int);
    let kept = mapped.subrange(0, underscore_end(mapped, mapped.len() as int));
    if kept.len() == 0 {
        "run"@
    } else {
        kept
    }
}

/// Makes a label fit to name a directory.
pub fn sanitize_label(label: &str) -> (out: String)
    ensures
        out@ == sanitized(label@),
{
    let chars = chars_of(label);
    let mut sanitized: Vec<char> = Vec::new();
    let mut last_sep = false;
    let mut i: usize = 0;
    while i < chars.len()
        invariant
            i <= chars.len(),
            chars@ == label@,
            sanitized@ == label_upto(label@, i as int),
            sanitized.len() <= LABEL_MAX_LEN,
            last_sep == (sanitized.len() < LABEL_MAX_LEN && ends_run(label@, i as int)),
        decreases chars.len() - i,
    {
        let c = chars[i];
        let mapped = if ascii_alnum_or_mark(c) {
            to_ascii_lower(c)
        } else {
            '_'
        };
        if sanitized.len() < LABEL_MAX_LEN {
            if mapped == '_' {
                if !last_sep {
                    sanitized.push(mapped);
                }
                last_sep = sanitized.len() < LABEL_MAX_LEN;
            } else {
                sanitized.push(mapped);
                last_sep = false;
            }
        } else {
            last_sep = false;
        }
        i = i + 1;
    }
    let mut end: usize = sanitized.len();
    while end > 0 && sanitized[end - 1] == '_'
        invariant
            end <= sanitized.len(),
            underscore_end(sanitized@, end as int) == underscore_end(
                sanitized@,
                sanitized.len() as int,
            ),
        decreases end,
    {
        end = end - 1;
    }
    if end == 0 {
        "run".to_owned()
    } else {
        string_of(&sanitized.as_slice()[0..end])
    }
}

fn ascii_alnum_or_mark(c: char) -> (b: bool)
    ensures
        b == (is_ascii_alnum(c) || c == '-' || c == '_'),
{
    crate::text::ascii_alnum(c) || c == '-' || c == '_'
}

/// The label of a run: the sanitized label where one is given and is not
/// blank, else `run`.
pub open spec fn run_label(label: Option<Seq<char>>) -> Seq<char> {
    match label {
        Some(l) => if trimmed(l).len() == 0 {
            "run"@
        } else {
            sanitized(trimmed(l))
        },
        None => "run"@,
    }
}

/// The first 12 characters of a scenario hash, or `unknown` without one.
pub open spec fn short_hash(hash: Option<Seq<char>>) -> Seq<char> {
    match hash {
        Some(h) => if h.len() > SHORT_HASH_LEN {
            h.subrange(0, SHORT_HASH_LEN as int)
        } else {
            h
        },
        None => "unknown"@,
    }
}

/// The name of a run: label, short hash and time stamp with `-` between
/// them.
pub open spec fn run_name(label: Option<Seq<char>>, hash: Option<Seq<char>>, ts: u128) -> Seq<char> {
    run_label(label) + "-"@ + short_hash(hash) + "-"@ + decimal_digits(ts as nat)
}

/// Names the evidence directory of a run that began at `ts` milliseconds.
pub fn run_id(label: Option<&str>, scenario_hash: Option<&str>, ts: u128) -> (id: String)
    ensures
        id@ == run_name(
            match label {
                Some(l) => Some(l@),
                None => None,
            },
            match scenario_hash {
                Some(h) => Some(h@),
                None => None,
            },
            ts,
        ),
{
    let mut buf: Vec<char> = Vec::new();
    match label {
        Some(l) => {
            let chars = chars_of(l);
            let kept = trim(chars.as_slice());
            if kept.len() == 0 {
                push_str(&mut buf, "run");
            } else {
                let text = string_of(kept);
                push_str(&mut buf, sanitize_label(text.as_str()).as_str());
            }
        },
        None => {
            push_str(&mut buf, "run");
        },
    }
    push_str(&mut buf, "-");
    match scenario_hash {
        Some(h) => {
            let chars = chars_of(h);
            if chars.len() > SHORT_HASH_LEN {
                push_all(&mut buf, &chars.as_slice()[0..SHORT_HASH_LEN]);
            } else {
                push_all(&mut buf, chars.as_slice());
            }
        },
        None => {
            push_str(&mut buf, "unknown");
        },
    }
    push_str(&mut buf, "-");
    push_unsigned(ts, &mut buf);
    string_of(buf.as_slice())
}

} // verus!
