//! Help rows written back from option records, and the law that parsing
//! reads them as they were.

use crate::help::{
    arg_placeholder, attached, attached_split, BindingHint, distinct_options, double_blank,
    double_blank_from, ended_line, help_options, HelpOption, HelpRecord, hint_upto, index_from,
    is_arg_like, is_blank, is_long_name, is_name_char, is_option_like, is_option_name,
    is_option_row, is_short_name, is_token_punct, long_option, names_upto, option_rows,
    option_segment, options_well_formed, record_names, record_option, record_rows, row_hint,
    row_names, row_of_line, rows_from, scan_from, scan_start, scan_token, segment_tokens,
    short_option, single_space_split, spec_segment, spec_tokens, spec_tokens_from, SpecTokenView,
    TokenScan, trailing, ValueForm, without_punct,
};
use crate::text::{
    find, is_space, lemma_find_from, occurs_at, push_str, skip_spaces, string_of, trim_end_at,
    trimmed, trimmed_end, trimmed_start, views,
};
use vstd::prelude::*;

verus! {

/// What follows an option in its row: nothing, or the placeholder `ARG` in
/// the form that the hint names.
pub open spec fn hint_suffix(hint: Option<BindingHint>) -> Seq<char> {
    match hint {
        None => Seq::<char>::empty(),
        Some(h) => if h.form == ValueForm::Attached {
            if h.optional {
                "[=ARG]"@
            } else {
                "=ARG"@
            }
        } else {
            if h.optional {
                " [ARG]"@
            } else {
                " ARG"@
            }
        },
    }
}

/// The row of a record: its option, then its hint.
pub open spec fn render_row(record: HelpRecord) -> Seq<char> {
    record.option + hint_suffix(record.binding)
}

proof fn lemma_name_chars(name: Seq<char>)
    requires
        is_option_name(name),
    ensures
        name.len() >= 2,
        name[0] == '-',
        forall|i: int| 0 <= i < name.len() ==> is_name_char(#[trigger] name[i]),
{
}

/// A text without the first character of a pattern does not hold the
/// pattern.
proof fn lemma_find_absent(s: Seq<char>, p: Seq<char>)
    requires
        p.len() > 0,
        forall|i: int| 0 <= i < s.len() ==> #[trigger] s[i] != p[0],
    ensures
        find(s, p) is None,
{
    lemma_find_from(s, p, 0);
    if find(s, p) is Some {
        let k = find(s, p)->0;
        assert(s.subrange(k, k + p.len())[0] == s[k]);
    }
}

/// Where a pattern occurs at `k` and its first character occurs nowhere
/// before `k`, the pattern is first found at `k`.
proof fn lemma_find_at(s: Seq<char>, p: Seq<char>, k: int)
    requires
        p.len() > 0,
        occurs_at(s, p, k),
        forall|i: int| 0 <= i < k ==> #[trigger] s[i] != p[0],
    ensures
        find(s, p) == Some(k),
{
    lemma_find_from(s, p, 0);
    let r = find(s, p)->0;
    if r < k {
        assert(s.subrange(r, r + p.len())[0] == s[r]);
    }
}

/// An option token alone splits into itself without a hint.
proof fn lemma_split_plain(name: Seq<char>)
    requires
        is_option_name(name),
    ensures
        attached_split(name) == Some((name, None::<BindingHint>)),
{
    reveal_strlit("[=");
    reveal_strlit("=");
    lemma_name_chars(name);
    lemma_find_absent(name, "[="@);
    lemma_find_absent(name, "="@);
}

/// An option token with `=ARG` splits into the token and a required
/// attached hint.
proof fn lemma_split_required(name: Seq<char>)
    requires
        is_option_name(name),
    ensures
        attached_split(name + "=ARG"@) == Some((name, Some(attached(false)))),
{
    reveal_strlit("[=");
    reveal_strlit("=");
    reveal_strlit("=ARG");
    lemma_name_chars(name);
    let seg = name + "=ARG"@;
    let k = name.len() as int;
    assert(forall|i: int| 0 <= i < seg.len() ==> #[trigger] seg[i] != '[');
    lemma_find_absent(seg, "[="@);
    assert(seg.subrange(k, k + 1) =~= "="@);
    assert(forall|i: int| 0 <= i < k ==> #[trigger] seg[i] == name[i]);
    lemma_find_at(seg, "="@, k);
    assert(seg.subrange(0, k) =~= name);
}

/// An option token with `[=ARG]` splits into the token and an optional
/// attached hint.
proof fn lemma_split_optional(name: Seq<char>)
    requires
        is_option_name(name),
    ensures
        attached_split(name + "[=ARG]"@) == Some((name, Some(attached(true)))),
{
    reveal_strlit("[=");
    reveal_strlit("=");
    reveal_strlit("[=ARG]");
    lemma_name_chars(name);
    let seg = name + "[=ARG]"@;
    let k = name.len() as int;
    assert(seg.subrange(k, k + 2) =~= "[="@);
    assert(forall|i: int| 0 <= i < k ==> #[trigger] seg[i] == name[i]);
    lemma_find_at(seg, "[="@, k);
    assert(seg.last() == ']');
    assert(seg.subrange(0, k) =~= name);
}

/// The attached part of a hint's suffix: empty for a trailing hint.
pub open spec fn attached_suffix(hint: Option<BindingHint>) -> Seq<char> {
    match hint {
        Some(h) => if h.form == ValueForm::Attached {
            hint_suffix(hint)
        } else {
            Seq::<char>::empty()
        },
        None => Seq::<char>::empty(),
    }
}

pub open spec fn attached_hint(hint: Option<BindingHint>) -> Option<BindingHint> {
    match hint {
        Some(h) => if h.form == ValueForm::Attached {
            hint
        } else {
            None
        },
        None => None,
    }
}

/// An option token with the attached part of a hint is read as that token
/// with that part of the hint.
proof fn lemma_option_segment(name: Seq<char>, hint: Option<BindingHint>)
    requires
        is_option_name(name),
    ensures
        option_segment(name + attached_suffix(hint)) == Some((name, attached_hint(hint))),
{
    reveal_strlit("[=ARG]");
    reveal_strlit("=ARG");
    lemma_name_chars(name);
    let seg = name + attached_suffix(hint);
    if attached_hint(hint) is None {
        assert(seg =~= name);
        lemma_split_plain(name);
    } else if hint->0.optional {
        assert(hint == Some(attached(true)));
        lemma_split_optional(name);
    } else {
        assert(hint == Some(attached(false)));
        lemma_split_required(name);
    }
    assert(seg[0] == name[0]);
    assert(seg[1] == name[1]);
    if is_long_name(name) {
        assert(seg.len() > 2);
        assert(long_option(seg) == Some((name, attached_hint(hint))));
    } else {
        assert(is_short_name(name));
        assert(long_option(seg) is None);
        assert(short_option(seg) == Some((name, attached_hint(hint))));
    }
}

/// The placeholder of a trailing hint.
pub open spec fn placeholder(optional: bool) -> Seq<char> {
    if optional {
        "[ARG]"@
    } else {
        "ARG"@
    }
}

pub open spec fn is_trailing(hint: Option<BindingHint>) -> bool {
    hint is Some && hint->0.form == ValueForm::Trailing
}

/// A character that ends a segment of the option part of a row.
pub open spec fn is_delimiter(c: char) -> bool {
    c == ',' || c == ';' || c == ':' || is_space(c)
}

/// A character of a rendered row other than the blank before a trailing
/// placeholder.
pub open spec fn is_row_char(c: char) -> bool {
    is_name_char(c) || c == '=' || c == '[' || c == ']' || c == 'A' || c == 'R' || c == 'G'
}

proof fn lemma_row_char(c: char)
    requires
        is_row_char(c),
    ensures
        !is_delimiter(c),
        !is_blank(c),
        !is_token_punct(c),
        c != '\n',
        c != '\r',
{
}

/// The option with the attached part of its hint: the first word of its
/// row.
pub open spec fn row_head(record: HelpRecord) -> Seq<char> {
    record.option + attached_suffix(record.binding)
}

proof fn lemma_row_shape(record: HelpRecord)
    requires
        is_option_name(record.option),
    ensures
        row_head(record).len() >= 2,
        row_head(record)[0] == '-',
        forall|i: int| 0 <= i < row_head(record).len() ==> is_row_char(#[trigger] row_head(record)[i]),
        forall|i: int|
            0 <= i < placeholder(true).len() ==> is_row_char(#[trigger] placeholder(true)[i]),
        forall|i: int|
            0 <= i < placeholder(false).len() ==> is_row_char(#[trigger] placeholder(false)[i]),
        placeholder(true).len() == 5,
        placeholder(false).len() == 3,
        render_row(record) == if is_trailing(record.binding) {
            row_head(record) + seq![' '] + placeholder(record.binding->0.optional)
        } else {
            row_head(record)
        },
{
    reveal_strlit("[=ARG]");
    reveal_strlit("=ARG");
    reveal_strlit(" [ARG]");
    reveal_strlit(" ARG");
    reveal_strlit("[ARG]");
    reveal_strlit("ARG");
    lemma_name_chars(record.option);
    let head = row_head(record);
    assert forall|i: int| 0 <= i < head.len() implies is_row_char(#[trigger] head[i]) by {
        if i < record.option.len() {
            assert(head[i] == record.option[i]);
        }
    }
    if is_trailing(record.binding) {
        assert(head =~= record.option);
        assert(render_row(record) =~= head + seq![' '] + placeholder(
            record.binding->0.optional,
        ));
    } else {
        assert(render_row(record) =~= head);
    }
}

proof fn lemma_tokens_skip(spec: Seq<char>, start: int, i: int, j: int)
    requires
        0 <= i <= j <= spec.len(),
        forall|k: int| i <= k < j ==> !is_delimiter(#[trigger] spec[k]),
    ensures
        spec_tokens_from(spec, start, i) == spec_tokens_from(spec, start, j),
    decreases j - i,
{
    if i < j {
        lemma_tokens_skip(spec, start, i + 1, j);
    }
}

proof fn lemma_head_tokens(record: HelpRecord)
    requires
        is_option_name(record.option),
    ensures
        segment_tokens(row_head(record)) == match attached_hint(record.binding) {
            Some(h) => seq![SpecTokenView::Name(record.option), SpecTokenView::Arg(h)],
            None => seq![SpecTokenView::Name(record.option)],
        },
{
    lemma_option_segment(record.option, record.binding);
    lemma_row_shape(record);
}

proof fn lemma_placeholder_tokens(optional: bool)
    ensures
        option_segment(placeholder(optional)) is None,
        arg_placeholder(placeholder(optional)) == Some(optional),
        segment_tokens(placeholder(optional)) == seq![SpecTokenView::Arg(trailing(optional))],
{
    reveal_strlit("[ARG]");
    reveal_strlit("ARG");
    let p = placeholder(optional);
    if !optional {
        assert(p[0] == 'A' && p[1] == 'R' && p[2] == 'G' && p.len() == 3);
        assert(crate::help::is_upper_char(p[0]));
        assert(crate::help::is_upper_placeholder(p));
    } else {
        assert(p[0] == '[' && p.last() == ']' && p.len() == 5);
    }
}

/// The tokens of a rendered row: its option, then its hint.
proof fn lemma_row_tokens(record: HelpRecord)
    requires
        is_option_name(record.option),
    ensures
        row_names(spec_tokens(render_row(record))) == seq![record.option],
        row_hint(spec_tokens(render_row(record))) == record.binding,
{
    lemma_row_shape(record);
    lemma_head_tokens(record);
    let row = render_row(record);
    let head = row_head(record);
    let k = head.len() as int;
    assert forall|i: int| 0 <= i < k implies !is_delimiter(#[trigger] row[i]) by {
        assert(row[i] == head[i]);
        lemma_row_char(head[i]);
    }
    lemma_tokens_skip(row, 0, 0, k);
    let name = SpecTokenView::Name(record.option);
    if is_trailing(record.binding) {
        let optional = record.binding->0.optional;
        let p = placeholder(optional);
        lemma_placeholder_tokens(optional);
        assert(row[k] == ' ');
        assert(row.subrange(0, k) =~= head);
        assert forall|i: int| k + 1 <= i < row.len() implies !is_delimiter(#[trigger] row[i]) by {
            assert(row[i] == p[i - k - 1]);
            lemma_row_char(p[i - k - 1]);
        }
        lemma_tokens_skip(row, k + 1, k + 1, row.len() as int);
        assert(row.subrange(k + 1, row.len() as int) =~= p);
        let tokens = spec_tokens(row);
        assert(tokens =~= seq![name, SpecTokenView::Arg(trailing(optional))]);
        assert(names_upto(tokens, 0) =~= seq![]);
        assert(names_upto(tokens, 1) =~= seq![record.option]);
        assert(names_upto(tokens, 2) =~= seq![record.option]);
        assert(hint_upto(tokens, 0) is None);
        assert(hint_upto(tokens, 1) is None);
        assert(hint_upto(tokens, 2) == Some(trailing(optional)));
    } else {
        assert(row.subrange(0, k) =~= head);
        let tokens = spec_tokens(row);
        assert(names_upto(tokens, 0) =~= seq![]);
        assert(names_upto(tokens, 1) =~= seq![record.option]);
        assert(hint_upto(tokens, 0) is None);
        assert(hint_upto(tokens, 1) is None);
        match attached_hint(record.binding) {
            Some(h) => {
                assert(tokens =~= seq![name, SpecTokenView::Arg(h)]);
                assert(names_upto(tokens, 2) =~= seq![record.option]);
                assert(hint_upto(tokens, 2) == Some(h));
            },
            None => {
                assert(tokens =~= seq![name]);
            },
        }
    }
}

proof fn lemma_scan_skip(t: Seq<char>, start: int, i: int, j: int, st: TokenScan)
    requires
        0 <= i <= j <= t.len(),
        forall|k: int| i <= k < j ==> !is_blank(#[trigger] t[k]),
    ensures
        scan_from(t, start, i, st) == scan_from(t, start, j, st),
    decreases j - i,
{
    if i < j {
        lemma_scan_skip(t, start, i + 1, j, st);
    }
}

proof fn lemma_no_double_blank(t: Seq<char>, i: int)
    requires
        0 <= i,
        forall|k: int| i <= k && k + 1 < t.len() ==> !(is_blank(#[trigger] t[k]) && is_blank(t[k + 1])),
    ensures
        double_blank_from(t, i) is None,
    decreases t.len() - i,
{
    if i + 1 < t.len() {
        lemma_no_double_blank(t, i + 1);
    }
}

proof fn lemma_without_punct(token: Seq<char>)
    requires
        token.len() > 0,
        !is_token_punct(token.last()),
    ensures
        without_punct(token) == token,
{
    assert(token.subrange(0, token.len() as int) =~= token);
}

/// A rendered row is an option row whose option part is the whole row.
proof fn lemma_row_segment(record: HelpRecord)
    requires
        is_option_name(record.option),
    ensures
        render_row(record).len() > 0,
        forall|i: int| 0 <= i < render_row(record).len() ==> #[trigger] render_row(record)[i] != '\n',
        ended_line(render_row(record)) == render_row(record),
        row_of_line(render_row(record)) == seq![render_row(record)],
{
    lemma_row_shape(record);
    let row = render_row(record);
    let head = row_head(record);
    let k = head.len() as int;
    let n = row.len() as int;
    assert forall|i: int| 0 <= i < k implies is_row_char(#[trigger] row[i]) by {
        assert(row[i] == head[i]);
    }
    if is_trailing(record.binding) {
        let p = placeholder(record.binding->0.optional);
        assert(row[k] == ' ');
        assert forall|i: int| k + 1 <= i < n implies is_row_char(#[trigger] row[i]) by {
            assert(row[i] == p[i - k - 1]);
        }
    }
    assert forall|i: int| 0 <= i < n implies #[trigger] row[i] != '\n' && row[i] != '\r' && (
    is_row_char(row[i]) || (i == k && row[i] == ' ' && is_trailing(record.binding))) by {
        if is_row_char(row[i]) {
            lemma_row_char(row[i]);
        }
    }
    lemma_row_char(row[0]);
    lemma_row_char(row.last());
    assert(skip_spaces(row, 0) == 0);
    assert(trimmed_start(row) =~= row);
    assert(trim_end_at(row, n) == n);
    assert(trimmed_end(row) =~= row);
    assert(trimmed(row) == row);
    assert(is_option_row(row));
    assert forall|j: int| 0 <= j && j + 1 < n implies !(is_blank(#[trigger] row[j]) && is_blank(
        row[j + 1],
    )) by {
        if is_row_char(row[j]) {
            lemma_row_char(row[j]);
        }
        if is_row_char(row[j + 1]) {
            lemma_row_char(row[j + 1]);
        }
    }
    lemma_no_double_blank(row, 0);
    assert(double_blank(row) is None);
    // The single-space scan sees option and argument tokens only.
    lemma_option_segment(record.option, record.binding);
    lemma_row_char(head.last());
    lemma_without_punct(head);
    assert(is_option_like(head));
    assert forall|i: int| 0 <= i < k implies !is_blank(#[trigger] row[i]) by {
        lemma_row_char(row[i]);
    }
    lemma_scan_skip(row, 0, 0, k, scan_start());
    let first = scan_token(scan_start(), head, 0);
    assert(first.split_at is None);
    assert(row.subrange(0, k) =~= head);
    if is_trailing(record.binding) {
        let optional = record.binding->0.optional;
        let p = placeholder(optional);
        lemma_placeholder_tokens(optional);
        assert(row.subrange(k + 1, n) =~= p);
        lemma_row_char(p.last());
        lemma_without_punct(p);
        assert(is_arg_like(p));
        assert forall|i: int| k + 1 <= i < n implies !is_blank(#[trigger] row[i]) by {
            lemma_row_char(row[i]);
        }
        lemma_scan_skip(row, k + 1, k + 1, n, first);
        assert(scan_from(row, 0, 0, scan_start()) == scan_token(first, p, k + 1));
        assert(scan_from(row, 0, 0, scan_start()).split_at is None);
    } else {
        assert(scan_from(row, 0, 0, scan_start()) == first);
    }
    assert(single_space_split(row) is None);
    assert(spec_segment(row) == row);
}

/// The rows of the first `n` records, one line each.
pub open spec fn render_upto(records: Seq<HelpRecord>, n: int) -> Seq<char>
    decreases n,
{
    if n <= 0 {
        Seq::<char>::empty()
    } else {
        render_upto(records, n - 1) + render_row(records[n - 1]) + seq!['\n']
    }
}

/// A help text with one row for each record.
pub open spec fn rendered(records: Seq<HelpRecord>) -> Seq<char> {
    render_upto(records, records.len() as int)
}

proof fn lemma_rows_skip(content: Seq<char>, start: int, i: int, j: int)
    requires
        0 <= i <= j <= content.len(),
        forall|k: int| i <= k < j ==> #[trigger] content[k] != '\n',
    ensures
        rows_from(content, start, i) == rows_from(content, start, j),
    decreases j - i,
{
    if i < j {
        lemma_rows_skip(content, start, i + 1, j);
    }
}

/// A line added to a text that ends its last line adds its row to the
/// rows of the text.
proof fn lemma_rows_append(c: Seq<char>, row: Seq<char>, start: int, i: int)
    requires
        c.len() == 0 || c.last() == '\n',
        forall|k: int| 0 <= k < row.len() ==> #[trigger] row[k] != '\n',
        0 <= start <= i <= c.len(),
        i == c.len() ==> start == i,
    ensures
        rows_from(c + row + seq!['\n'], start, i) == rows_from(c, start, i) + row_of_line(
            ended_line(row),
        ),
    decreases c.len() - i,
{
    let whole = c + row + seq!['\n'];
    let n = c.len() as int;
    let m = n + row.len();
    if i == n {
        assert(rows_from(c, start, i) =~= seq![]);
        assert forall|k: int| n <= k < m implies #[trigger] whole[k] != '\n' by {
            assert(whole[k] == row[k - n]);
        }
        lemma_rows_skip(whole, n, n, m);
        assert(whole[m] == '\n');
        assert(whole.subrange(n, m) =~= row);
        assert(rows_from(whole, m + 1, m + 1) =~= seq![]);
        assert(rows_from(whole, n, m) =~= row_of_line(ended_line(row)));
    } else {
        assert(whole[i] == c[i]);
        if c[i] == '\n' {
            assert(whole.subrange(start, i) =~= c.subrange(start, i));
            lemma_rows_append(c, row, i + 1, i + 1);
            assert(rows_from(whole, start, i) =~= rows_from(c, start, i) + row_of_line(
                ended_line(row),
            ));
        } else {
            lemma_rows_append(c, row, start, i + 1);
        }
    }
}

/// The rendered rows of the first `n` records.
pub open spec fn rows_upto(records: Seq<HelpRecord>, n: int) -> Seq<Seq<char>>
    decreases n,
{
    if n <= 0 {
        seq![]
    } else {
        rows_upto(records, n - 1).push(render_row(records[n - 1]))
    }
}

proof fn lemma_rendered_rows(records: Seq<HelpRecord>, n: int)
    requires
        options_well_formed(records),
        0 <= n <= records.len(),
    ensures
        option_rows(render_upto(records, n)) == rows_upto(records, n),
        rows_upto(records, n).len() == n,
        render_upto(records, n).len() == 0 || render_upto(records, n).last() == '\n',
    decreases n,
{
    if n > 0 {
        lemma_rendered_rows(records, n - 1);
        let c = render_upto(records, n - 1);
        let row = render_row(records[n - 1]);
        lemma_row_segment(records[n - 1]);
        lemma_rows_append(c, row, 0, 0);
        assert(option_rows(render_upto(records, n)) =~= rows_upto(records, n));
    } else {
        assert(option_rows(render_upto(records, n)) =~= rows_upto(records, n));
    }
}

proof fn lemma_index_absent(records: Seq<HelpRecord>, name: Seq<char>, from: int)
    requires
        0 <= from,
        forall|j: int| from <= j < records.len() ==> (#[trigger] records[j]).option != name,
    ensures
        index_from(records, name, from) is None,
    decreases records.len() - from,
{
    if from < records.len() {
        lemma_index_absent(records, name, from + 1);
    }
}

proof fn lemma_recorded_rows(records: Seq<HelpRecord>, n: int)
    requires
        distinct_options(records),
        options_well_formed(records),
        0 <= n <= records.len(),
    ensures
        record_rows(rows_upto(records, records.len() as int), n) == records.take(n),
    decreases n,
{
    let rows = rows_upto(records, records.len() as int);
    if n > 0 {
        lemma_recorded_rows(records, n - 1);
        lemma_rows_index(records, records.len() as int, n - 1);
        let record = records[n - 1];
        let before = records.take(n - 1);
        lemma_row_tokens(record);
        let tokens = spec_tokens(render_row(record));
        let names = row_names(tokens);
        assert(names.len() == 1 && names[0] == record.option);
        assert forall|j: int| 0 <= j < before.len() implies (#[trigger] before[j]).option
            != record.option by {
            assert(before[j] == records[j]);
        }
        lemma_index_absent(before, record.option, 0);
        assert(record_names(before, names, record.binding, 0) == before);
        assert(record_names(before, names, record.binding, 1) == record_option(
            before,
            record.option,
            record.binding,
        ));
        assert(record_option(before, record.option, record.binding) =~= records.take(n));
    } else {
        assert(record_rows(rows, n) =~= records.take(n));
    }
}

proof fn lemma_rows_index(records: Seq<HelpRecord>, n: int, k: int)
    requires
        0 <= k < n <= records.len(),
    ensures
        rows_upto(records, n).len() == n,
        rows_upto(records, n)[k] == render_row(records[k]),
    decreases n,
{
    lemma_rows_len(records, n);
    if k < n - 1 {
        lemma_rows_index(records, n - 1, k);
    } else {
        lemma_rows_len(records, n - 1);
    }
}

proof fn lemma_rows_len(records: Seq<HelpRecord>, n: int)
    requires
        0 <= n,
    ensures
        rows_upto(records, n).len() == n,
    decreases n,
{
    if n > 0 {
        lemma_rows_len(records, n - 1);
    }
}

/// Parsing reads rendered records as they are: a help text with one row
/// for each record, where the records hold option tokens and no token
/// twice, parses to those records.
pub proof fn lemma_parse_rendered(records: Seq<HelpRecord>)
    requires
        distinct_options(records),
        options_well_formed(records),
    ensures
        help_options(rendered(records)) == records,
{
    let n = records.len() as int;
    lemma_rendered_rows(records, n);
    lemma_recorded_rows(records, n);
    assert(records.take(n) =~= records);
}

/// Parsing is idempotent over rendering: the records of any help text,
/// rendered and parsed again, are the same records.
pub proof fn lemma_parse_idempotent(content: Seq<char>)
    ensures
        help_options(rendered(help_options(content))) == help_options(content),
{
    crate::help::lemma_help_options(content);
    lemma_parse_rendered(help_options(content));
}

fn hint_text(hint: Option<BindingHint>) -> (text: &'static str)
    ensures
        text@ == hint_suffix(hint),
{
    match hint {
        None => {
            proof {
                reveal_strlit("");
            }
            ""
        },
        Some(h) => match h.form {
            ValueForm::Attached => if h.optional {
                "[=ARG]"
            } else {
                "=ARG"
            },
            ValueForm::Trailing => if h.optional {
                " [ARG]"
            } else {
                " ARG"
            },
        },
    }
}

/// Writes a help text with one row for each option: the option token,
/// then the placeholder `ARG` in the form of its hint. Parsing the text
/// gives the options back where they are option tokens and differ.
pub fn render_help_options(options: &Vec<HelpOption>) -> (text: String)
    ensures
        text@ == rendered(views(options@)),
        distinct_options(views(options@)) && options_well_formed(views(options@))
            ==> help_options(text@) == views(options@),
{
    let mut out: Vec<char> = Vec::new();
    let mut i: usize = 0;
    while i < options.len()
        invariant
            i <= options.len(),
            out@ == render_upto(views(options@), i as int),
        decreases options.len() - i,
    {
        push_str(&mut out, options[i].option.as_str());
        push_str(&mut out, hint_text(options[i].binding));
        out.push('\n');
        i = i + 1;
    }
    proof {
        if distinct_options(views(options@)) && options_well_formed(views(options@)) {
            lemma_parse_rendered(views(options@));
        }
    }
    string_of(out.as_slice())
}

} // verus!
