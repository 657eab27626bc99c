//! Help-text parsing into option records with binding hints.

use crate::text::{
    ascii_alnum, chars_of, find, find_in, is_ascii_alnum, is_space, lemma_views_push, space,
    string_of, to_vec, trim, trim_end, trim_start, trimmed, trimmed_end, trimmed_start, views,
};
use vstd::prelude::*;

verus! {

/// How a value attaches to its option: `--opt=V` or `--opt V`.
#[derive(Debug, Clone, Copy, PartialEq, Eq, Structural)]
pub enum ValueForm {
    Attached,
    Trailing,
}

/// What a help row says about the value of an option.
#[derive(Debug, Clone, Copy, PartialEq, Eq, Structural)]
pub struct BindingHint {
    pub optional: bool,
    pub form: ValueForm,
}

/// One option token found in help text, with the hint of its rows.
#[derive(Debug, Clone)]
pub struct HelpOption {
    pub option: String,
    pub binding: Option<BindingHint>,
}

/// The mathematical content of a `HelpOption`.
pub ghost struct HelpRecord {
    pub option: Seq<char>,
    pub binding: Option<BindingHint>,
}

impl View for HelpOption {
    type V = HelpRecord;

    open spec fn view(&self) -> HelpRecord {
        HelpRecord { option: self.option@, binding: self.binding }
    }
}

/// An option part and the hint of its attached argument form, if it has one.
pub type Parsed = (Seq<char>, Option<BindingHint>);

pub open spec fn attached(optional: bool) -> BindingHint {
    BindingHint { optional, form: ValueForm::Attached }
}

pub open spec fn trailing(optional: bool) -> BindingHint {
    BindingHint { optional, form: ValueForm::Trailing }
}

/// Splits `--name[=ARG]` and `--name=ARG` into the option part and the hint;
/// a token without `=` is its own option part. An empty argument is rejected.
pub open spec fn attached_split(token: Seq<char>) -> Option<Parsed> {
    let bracket = find(token, "[="@);
    let equals = find(token, "="@);
    if bracket is Some && token.len() > 0 && token.last() == ']' {
        if bracket->0 + 3 < token.len() {
            Some((token.subrange(0, bracket->0), Some(attached(true))))
        } else {
            None
        }
    } else if equals is Some {
        if equals->0 + 1 < token.len() {
            Some((token.subrange(0, equals->0), Some(attached(false))))
        } else {
            None
        }
    } else {
        Some((token, None))
    }
}

pub open spec fn is_name_char(c: char) -> bool {
    is_ascii_alnum(c) || c == '-'
}

/// `--` followed by one alphanumeric character, then alphanumerics or `-`.
pub open spec fn is_long_name(opt: Seq<char>) -> bool {
    &&& opt.len() > 2
    &&& opt[0] == '-'
    &&& opt[1] == '-'
    &&& is_ascii_alnum(opt[2])
    &&& forall|i: int| 3 <= i < opt.len() ==> is_name_char(#[trigger] opt[i])
}

/// `-` followed by exactly one alphanumeric character.
pub open spec fn is_short_name(opt: Seq<char>) -> bool {
    opt.len() == 2 && opt[0] == '-' && is_ascii_alnum(opt[1])
}

/// A segment read as a long option with its attached argument form.
pub open spec fn long_option(segment: Seq<char>) -> Option<Parsed> {
    if segment.len() > 2 && segment[0] == '-' && segment[1] == '-' {
        match attached_split(segment) {
            Some(parsed) => if is_long_name(parsed.0) {
                Some(parsed)
            } else {
                None
            },
            None => None,
        }
    } else {
        None
    }
}

/// A segment read as a short option with its attached argument form.
pub open spec fn short_option(segment: Seq<char>) -> Option<Parsed> {
    if segment.len() >= 2 && segment[0] == '-' && segment[1] != '-' {
        match attached_split(segment) {
            Some(parsed) => if is_short_name(parsed.0) {
                Some(parsed)
            } else {
                None
            },
            None => None,
        }
    } else {
        None
    }
}

/// A segment read as an option token, long form first.
pub open spec fn option_segment(segment: Seq<char>) -> Option<Parsed> {
    match long_option(segment) {
        Some(parsed) => Some(parsed),
        None => short_option(segment),
    }
}

pub open spec fn is_upper_char(c: char) -> bool {
    'A' <= c && c <= 'Z'
}

pub open spec fn is_placeholder_char(c: char) -> bool {
    is_upper_char(c) || ('0' <= c && c <= '9') || c == '-' || c == '_'
}

/// Upper-case letters, digits, `-` and `_` only, with at least one letter.
pub open spec fn is_upper_placeholder(token: Seq<char>) -> bool {
    &&& forall|i: int| 0 <= i < token.len() ==> is_placeholder_char(#[trigger] token[i])
    &&& exists|i: int| 0 <= i < token.len() && is_upper_char(#[trigger] token[i])
}

/// Whether `token` is an argument placeholder, and if so whether it is
/// optional: `[X]` is optional, `<X>` and `UPPER` are required.
pub open spec fn arg_placeholder(token: Seq<char>) -> Option<bool> {
    if token.len() >= 2 && token[0] == '[' && token.last() == ']' {
        if token.len() > 2 {
            Some(true)
        } else {
            None
        }
    } else if token.len() >= 2 && token[0] == '<' && token.last() == '>' {
        if token.len() > 2 {
            Some(false)
        } else {
            None
        }
    } else if is_upper_placeholder(token) {
        Some(false)
    } else {
        None
    }
}

pub open spec fn is_token_punct(c: char) -> bool {
    c == ',' || c == ';' || c == ':'
}

/// The end of `token[..j]` once trailing `,`, `;` and `:` are dropped.
pub open spec fn punct_end(token: Seq<char>, j: int) -> int
    decreases j,
{
    if 0 < j <= token.len() && is_token_punct(token[j - 1]) {
        punct_end(token, j - 1)
    } else {
        j
    }
}

/// `token` without trailing `,`, `;` and `:`.
pub open spec fn without_punct(token: Seq<char>) -> Seq<char> {
    token.subrange(0, punct_end(token, token.len() as int))
}

/// A token that reads as an option once its trailing punctuation is dropped.
pub open spec fn is_option_like(token: Seq<char>) -> bool {
    option_segment(without_punct(token)) is Some
}

/// A token that reads as an argument placeholder once its trailing punctuation is dropped.
pub open spec fn is_arg_like(token: Seq<char>) -> bool {
    arg_placeholder(without_punct(token)) is Some
}

/// A token that is `,` or `;` alone.
pub open spec fn is_separator(token: Seq<char>) -> bool {
    token == seq![','] || token == seq![';']
}

/// The hint of an attached argument form, as executable code returns it with
/// the length of the option part.
pub fn split_attached_arg_form(token: &[char]) -> (r: Option<(usize, Option<BindingHint>)>)
    ensures
        match r {
            Some((n, hint)) => n <= token.len() && attached_split(token@) == Some(
                (token@.subrange(0, n as int), hint),
            ),
            None => attached_split(token@) is None,
        },
{
    let bracket_pat = chars_of("[=");
    let equals_pat = chars_of("=");
    let bracket = find_in(token, bracket_pat.as_slice());
    if let Some(idx) = bracket {
        if token.len() > 0 && token[token.len() - 1] == ']' {
            if idx < token.len() && 3 <= token.len() - idx && idx + 3 < token.len() {
                return Some((idx, Some(BindingHint { optional: true, form: ValueForm::Attached })));
            }
            return None;
        }
    }
    let equals = find_in(token, equals_pat.as_slice());
    if let Some(idx) = equals {
        if idx < token.len() && idx + 1 < token.len() {
            return Some((idx, Some(BindingHint { optional: false, form: ValueForm::Attached })));
        }
        return None;
    }
    Some((token.len(), None))
}

fn long_name(opt: &[char]) -> (b: bool)
    ensures
        b == is_long_name(opt@),
{
    if opt.len() <= 2 || opt[0] != '-' || opt[1] != '-' || !ascii_alnum(opt[2]) {
        return false;
    }
    let mut i: usize = 3;
    while i < opt.len()
        invariant
            3 <= i <= opt.len(),
            forall|j: int| 3 <= j < i ==> is_name_char(#[trigger] opt@[j]),
        decreases opt.len() - i,
    {
        if !(ascii_alnum(opt[i]) || opt[i] == '-') {
            return false;
        }
        i = i + 1;
    }
    true
}

/// Reads a segment as a long option; gives the length of the option part and the hint.
pub fn parse_long_option_segment(segment: &[char]) -> (r: Option<(usize, Option<BindingHint>)>)
    ensures
        match r {
            Some((n, hint)) => n <= segment.len() && long_option(segment@) == Some(
                (segment@.subrange(0, n as int), hint),
            ),
            None => long_option(segment@) is None,
        },
{
    if segment.len() <= 2 || segment[0] != '-' || segment[1] != '-' {
        return None;
    }
    match split_attached_arg_form(segment) {
        Some((n, hint)) => {
            if long_name(&segment[0..n]) {
                Some((n, hint))
            } else {
                None
            }
        },
        None => None,
    }
}

/// Reads a segment as a short option; gives the length of the option part and the hint.
pub fn parse_short_option_segment(segment: &[char]) -> (r: Option<(usize, Option<BindingHint>)>)
    ensures
        match r {
            Some((n, hint)) => n <= segment.len() && short_option(segment@) == Some(
                (segment@.subrange(0, n as int), hint),
            ),
            None => short_option(segment@) is None,
        },
{
    if segment.len() < 2 || segment[0] != '-' || segment[1] == '-' {
        return None;
    }
    match split_attached_arg_form(segment) {
        Some((n, hint)) => {
            if n == 2 && ascii_alnum(segment[1]) {
                Some((n, hint))
            } else {
                None
            }
        },
        None => None,
    }
}

/// Reads a segment as an option token, long form first.
pub fn parse_option_segment(segment: &[char]) -> (r: Option<(usize, Option<BindingHint>)>)
    ensures
        match r {
            Some((n, hint)) => n <= segment.len() && option_segment(segment@) == Some(
                (segment@.subrange(0, n as int), hint),
            ),
            None => option_segment(segment@) is None,
        },
{
    match parse_long_option_segment(segment) {
        Some(parsed) => Some(parsed),
        None => parse_short_option_segment(segment),
    }
}

pub fn upper_placeholder(token: &[char]) -> (b: bool)
    ensures
        b == is_upper_placeholder(token@),
{
    let mut has_alpha = false;
    let mut i: usize = 0;
    while i < token.len()
        invariant
            i <= token.len(),
            forall|j: int| 0 <= j < i ==> is_placeholder_char(#[trigger] token@[j]),
            has_alpha == exists|j: int| 0 <= j < i && is_upper_char(#[trigger] token@[j]),
        decreases token.len() - i,
    {
        let c = token[i];
        if 'A' <= c && c <= 'Z' {
            has_alpha = true;
        } else if !(('0' <= c && c <= '9') || c == '-' || c == '_') {
            return false;
        }
        i = i + 1;
    }
    has_alpha
}

/// Reads a token as an argument placeholder; says whether it is optional.
pub fn classify_arg_token(token: &[char]) -> (r: Option<bool>)
    ensures
        r == arg_placeholder(token@),
{
    let n = token.len();
    if n >= 2 && token[0] == '[' && token[n - 1] == ']' {
        if n > 2 {
            return Some(true);
        }
        return None;
    }
    if n >= 2 && token[0] == '<' && token[n - 1] == '>' {
        if n > 2 {
            return Some(false);
        }
        return None;
    }
    if upper_placeholder(token) {
        return Some(false);
    }
    None
}

/// Reads a segment as a trailing argument placeholder.
pub fn parse_trailing_arg_segment(segment: &[char]) -> (r: Option<BindingHint>)
    ensures
        r == match arg_placeholder(segment@) {
            Some(optional) => Some(trailing(optional)),
            None => None,
        },
{
    match classify_arg_token(segment) {
        Some(optional) => Some(BindingHint { optional, form: ValueForm::Trailing }),
        None => None,
    }
}

pub fn trim_token_punct(token: &[char]) -> (t: &[char])
    ensures
        t@ == without_punct(token@),
{
    let mut k: usize = token.len();
    while k > 0 && (token[k - 1] == ',' || token[k - 1] == ';' || token[k - 1] == ':')
        invariant
            k <= token.len(),
            punct_end(token@, k as int) == punct_end(token@, token.len() as int),
        decreases k,
    {
        k = k - 1;
    }
    &token[0..k]
}

pub fn looks_like_option_token(token: &[char]) -> (b: bool)
    ensures
        b == is_option_like(token@),
{
    parse_option_segment(trim_token_punct(token)).is_some()
}

pub fn looks_like_arg_token(token: &[char]) -> (b: bool)
    ensures
        b == is_arg_like(token@),
{
    classify_arg_token(trim_token_punct(token)).is_some()
}

pub fn looks_like_separator_token(token: &[char]) -> (b: bool)
    ensures
        b == is_separator(token@),
{
    let b = token.len() == 1 && (token[0] == ',' || token[0] == ';');
    proof {
        if b {
            assert(token@ =~= seq![token@[0]]);
        }
    }
    b
}

/// One token of the option part of a help row.
#[derive(Debug, Clone)]
pub enum SpecToken {
    Name(Vec<char>),
    Arg(BindingHint),
    Separator,
}

pub ghost enum SpecTokenView {
    Name(Seq<char>),
    Arg(BindingHint),
    Separator,
}

impl View for SpecToken {
    type V = SpecTokenView;

    open spec fn view(&self) -> SpecTokenView {
        match self {
            SpecToken::Name(name) => SpecTokenView::Name(name@),
            SpecToken::Arg(hint) => SpecTokenView::Arg(*hint),
            SpecToken::Separator => SpecTokenView::Separator,
        }
    }
}

/// The tokens that one segment stands for: an option with the hint of its
/// attached form, or an argument placeholder, or nothing.
pub open spec fn segment_tokens(segment: Seq<char>) -> Seq<SpecTokenView> {
    if segment.len() == 0 {
        seq![]
    } else {
        match option_segment(segment) {
            Some(parsed) => match parsed.1 {
                Some(hint) => seq![SpecTokenView::Name(parsed.0), SpecTokenView::Arg(hint)],
                None => seq![SpecTokenView::Name(parsed.0)],
            },
            None => match arg_placeholder(segment) {
                Some(optional) => seq![SpecTokenView::Arg(trailing(optional))],
                None => seq![],
            },
        }
    }
}

/// The tokens of `spec[start..]`, where the segment being read began at
/// `start` and `i` is the next character to look at. White space and `:` end
/// a segment silently; `,` and `;` end it and leave a separator.
pub open spec fn spec_tokens_from(spec: Seq<char>, start: int, i: int) -> Seq<SpecTokenView>
    decreases spec.len() - i,
{
    if i < 0 || i >= spec.len() {
        segment_tokens(spec.subrange(start, spec.len() as int))
    } else if spec[i] == ',' || spec[i] == ';' {
        segment_tokens(spec.subrange(start, i)) + seq![SpecTokenView::Separator]
            + spec_tokens_from(spec, i + 1, i + 1)
    } else if spec[i] == ':' || is_space(spec[i]) {
        segment_tokens(spec.subrange(start, i)) + spec_tokens_from(spec, i + 1, i + 1)
    } else {
        spec_tokens_from(spec, start, i + 1)
    }
}

/// The tokens of the option part of a row.
pub open spec fn spec_tokens(spec: Seq<char>) -> Seq<SpecTokenView> {
    spec_tokens_from(spec, 0, 0)
}

/// Appends the tokens that one segment stands for.
pub fn flush_spec_segment(segment: &[char], tokens: &mut Vec<SpecToken>)
    ensures
        views(final(tokens)@) == views(old(tokens)@) + segment_tokens(segment@),
{
    if segment.len() == 0 {
        return ;
    }
    if let Some((n, hint)) = parse_option_segment(segment) {
        let name = to_vec(&segment[0..n]);
        tokens.push(SpecToken::Name(name));
        if let Some(hint) = hint {
            tokens.push(SpecToken::Arg(hint));
        }
        return ;
    }
    if let Some(hint) = parse_trailing_arg_segment(segment) {
        tokens.push(SpecToken::Arg(hint));
    }
}

/// Splits the option part of a row into tokens.
pub fn tokenize_spec(spec: &[char]) -> (tokens: Vec<SpecToken>)
    ensures
        views(tokens@) == spec_tokens(spec@),
{
    let mut tokens: Vec<SpecToken> = Vec::new();
    let mut start: usize = 0;
    let mut i: usize = 0;
    while i < spec.len()
        invariant
            start <= i <= spec.len(),
            views(tokens@) + spec_tokens_from(spec@, start as int, i as int) =~= spec_tokens(spec@),
        decreases spec.len() - i,
    {
        let c = spec[i];
        if c == ',' || c == ';' {
            flush_spec_segment(&spec[start..i], &mut tokens);
            proof {
                lemma_views_push(tokens@, SpecToken::Separator);
            }
            tokens.push(SpecToken::Separator);
            start = i + 1;
        } else if c == ':' || space(c) {
            flush_spec_segment(&spec[start..i], &mut tokens);
            start = i + 1;
        }
        i = i + 1;
    }
    flush_spec_segment(&spec[start..spec.len()], &mut tokens);
    tokens
}

/// The option names among the first `n` tokens, in order.
pub open spec fn names_upto(tokens: Seq<SpecTokenView>, n: int) -> Seq<Seq<char>>
    decreases n,
{
    if n <= 0 {
        seq![]
    } else {
        match tokens[n - 1] {
            SpecTokenView::Name(name) => names_upto(tokens, n - 1).push(name),
            _ => names_upto(tokens, n - 1),
        }
    }
}

/// An attached form is preferred over a trailing one; otherwise the earlier
/// hint stays.
pub open spec fn prefer_arg(existing: BindingHint, candidate: BindingHint) -> BindingHint {
    if existing.form == ValueForm::Trailing && candidate.form == ValueForm::Attached {
        candidate
    } else {
        existing
    }
}

/// The hint that the first `n` tokens share.
pub open spec fn hint_upto(tokens: Seq<SpecTokenView>, n: int) -> Option<BindingHint>
    decreases n,
{
    if n <= 0 {
        None
    } else {
        match tokens[n - 1] {
            SpecTokenView::Arg(candidate) => match hint_upto(tokens, n - 1) {
                Some(existing) => Some(prefer_arg(existing, candidate)),
                None => Some(candidate),
            },
            _ => hint_upto(tokens, n - 1),
        }
    }
}

/// The option names of a row, in order.
pub open spec fn row_names(tokens: Seq<SpecTokenView>) -> Seq<Seq<char>> {
    names_upto(tokens, tokens.len() as int)
}

/// The hint that the options of a row share.
pub open spec fn row_hint(tokens: Seq<SpecTokenView>) -> Option<BindingHint> {
    hint_upto(tokens, tokens.len() as int)
}

/// The options of one help row with the single hint they share.
#[derive(Debug, Clone)]
pub struct OptionSpec {
    pub options: Vec<Vec<char>>,
    pub arg: Option<BindingHint>,
}

pub fn prefer_arg_spec(existing: BindingHint, candidate: BindingHint) -> (r: BindingHint)
    ensures
        r == prefer_arg(existing, candidate),
{
    if existing.form == ValueForm::Trailing && candidate.form == ValueForm::Attached {
        candidate
    } else {
        existing
    }
}

/// Gathers the options of a row and the hint they share; a row without options gives none.
pub fn parse_option_spec(tokens: &Vec<SpecToken>) -> (r: Option<OptionSpec>)
    ensures
        match r {
            Some(spec) => spec.options.len() > 0 && views(spec.options@) == row_names(
                views(tokens@),
            ) && spec.arg == row_hint(views(tokens@)),
            None => row_names(views(tokens@)).len() == 0,
        },
{
    let mut options: Vec<Vec<char>> = Vec::new();
    let mut arg: Option<BindingHint> = None;
    let mut i: usize = 0;
    while i < tokens.len()
        invariant
            i <= tokens.len(),
            views(options@) == names_upto(views(tokens@), i as int),
            arg == hint_upto(views(tokens@), i as int),
        decreases tokens.len() - i,
    {
        match &tokens[i] {
            SpecToken::Name(name) => {
                let copy = to_vec(name.as_slice());
                options.push(copy);
            },
            SpecToken::Arg(candidate) => {
                arg = match arg {
                    None => Some(*candidate),
                    Some(existing) => Some(prefer_arg_spec(existing, *candidate)),
                };
            },
            SpecToken::Separator => {},
        }
        i = i + 1;
    }
    if options.len() == 0 {
        None
    } else {
        Some(OptionSpec { options, arg })
    }
}

/// A space or a tab.
pub open spec fn is_blank(c: char) -> bool {
    c == ' ' || c == '\t'
}

pub fn is_whitespace(c: char) -> (b: bool)
    ensures
        b == is_blank(c),
{
    c == ' ' || c == '\t'
}

/// A line whose first character after white space is `-`, and that does not
/// begin with `---`.
pub open spec fn is_option_row(line: Seq<char>) -> bool {
    let t = trimmed_start(line);
    t.len() > 0 && t[0] == '-' && !(t.len() >= 3 && t[1] == '-' && t[2] == '-')
}

/// Whether a line looks like the start of an option row.
pub fn looks_like_option_table(line: &[char]) -> (b: bool)
    ensures
        b == is_option_row(line@),
{
    let t = trim_start(line);
    t.len() > 0 && t[0] == '-' && !(t.len() >= 3 && t[1] == '-' && t[2] == '-')
}

/// The first index at or after `i` where two blanks stand side by side.
pub open spec fn double_blank_from(t: Seq<char>, i: int) -> Option<int>
    decreases t.len() - i,
{
    if 0 <= i && i + 1 < t.len() {
        if is_blank(t[i]) && is_blank(t[i + 1]) {
            Some(i)
        } else {
            double_blank_from(t, i + 1)
        }
    } else {
        None
    }
}

/// The first index where two blanks stand side by side.
pub open spec fn double_blank(t: Seq<char>) -> Option<int> {
    double_blank_from(t, 0)
}

/// Finds the first gap of two blanks in a line.
pub fn split_on_double_space_index(line: &[char]) -> (r: Option<usize>)
    ensures
        match r {
            Some(k) => k + 1 < line.len() && double_blank(line@) == Some(k as int),
            None => double_blank(line@) is None,
        },
{
    let mut i: usize = 0;
    while i < line.len() && i + 1 < line.len()
        invariant
            i <= line.len(),
            double_blank_from(line@, i as int) == double_blank(line@),
        decreases line.len() - i,
    {
        if is_whitespace(line[i]) && is_whitespace(line[i + 1]) {
            return Some(i);
        }
        i = i + 1;
    }
    None
}

/// What the single-space fallback has seen of a line so far.
pub ghost struct TokenScan {
    pub saw_option: bool,
    pub spec_tokens: nat,
    pub other_tokens: nat,
    pub split_at: Option<int>,
}

/// The scan after the token that starts at `start`: option, argument and
/// separator tokens count as spec tokens; the first other token after an
/// option marks the split.
pub open spec fn scan_token(st: TokenScan, token: Seq<char>, start: int) -> TokenScan {
    let is_option = is_option_like(token);
    if is_option || is_arg_like(token) || is_separator(token) {
        TokenScan {
            saw_option: st.saw_option || is_option,
            spec_tokens: st.spec_tokens + 1,
            other_tokens: st.other_tokens,
            split_at: st.split_at,
        }
    } else {
        TokenScan {
            saw_option: st.saw_option,
            spec_tokens: st.spec_tokens,
            other_tokens: st.other_tokens + 1,
            split_at: if st.saw_option && st.split_at is None {
                Some(start)
            } else {
                st.split_at
            },
        }
    }
}

/// The scan of the blank-separated tokens of `t[start..]`, where the token
/// being read began at `start` and `i` is the next character to look at.
pub open spec fn scan_from(t: Seq<char>, start: int, i: int, st: TokenScan) -> TokenScan
    decreases t.len() - i,
{
    if i < 0 || i >= t.len() {
        if start < t.len() {
            scan_token(st, t.subrange(start, t.len() as int), start)
        } else {
            st
        }
    } else if is_blank(t[i]) {
        scan_from(
            t,
            i + 1,
            i + 1,
            if start < i {
                scan_token(st, t.subrange(start, i), start)
            } else {
                st
            },
        )
    } else {
        scan_from(t, start, i + 1, st)
    }
}

/// The scan before any token.
pub open spec fn scan_start() -> TokenScan {
    TokenScan { saw_option: false, spec_tokens: 0, other_tokens: 0, split_at: None }
}

/// The longest line that the single-space fallback looks at.
pub const SINGLE_SPACE_SPLIT_MAX_LEN: usize = 72;

/// Where a line of at most 72 characters without a two-blank gap splits into
/// option part and description: before the first token after an option that
/// is neither option, argument nor separator, provided such tokens do not
/// outnumber the others.
pub open spec fn single_space_split(t: Seq<char>) -> Option<int> {
    let st = scan_from(t, 0, 0, scan_start());
    if t.len() <= SINGLE_SPACE_SPLIT_MAX_LEN && st.saw_option && st.split_at is Some && st.spec_tokens
        >= st.other_tokens {
        st.split_at
    } else {
        None
    }
}

/// The executable form of `TokenScan`.
#[derive(Debug, Clone, Copy)]
pub struct SplitScan {
    pub saw_option: bool,
    pub spec_tokens: usize,
    pub other_tokens: usize,
    pub split_at: Option<usize>,
}

impl View for SplitScan {
    type V = TokenScan;

    open spec fn view(&self) -> TokenScan {
        TokenScan {
            saw_option: self.saw_option,
            spec_tokens: self.spec_tokens as nat,
            other_tokens: self.other_tokens as nat,
            split_at: match self.split_at {
                Some(k) => Some(k as int),
                None => None,
            },
        }
    }
}

fn scan_one(st: SplitScan, token: &[char], start: usize) -> (r: SplitScan)
    requires
        st.spec_tokens + st.other_tokens < usize::MAX,
    ensures
        r@ == scan_token(st@, token@, start as int),
        r.spec_tokens + r.other_tokens == st.spec_tokens + st.other_tokens + 1,
{
    let is_option = looks_like_option_token(token);
    if is_option || looks_like_arg_token(token) || looks_like_separator_token(token) {
        SplitScan {
            saw_option: st.saw_option || is_option,
            spec_tokens: st.spec_tokens + 1,
            other_tokens: st.other_tokens,
            split_at: st.split_at,
        }
    } else {
        SplitScan {
            saw_option: st.saw_option,
            spec_tokens: st.spec_tokens,
            other_tokens: st.other_tokens + 1,
            split_at: if st.saw_option && st.split_at.is_none() {
                Some(start)
            } else {
                st.split_at
            },
        }
    }
}

/// Finds where a short line without a two-blank gap splits into option part and description.
pub fn split_on_single_space_fallback(line: &[char]) -> (r: Option<usize>)
    ensures
        match r {
            Some(k) => k <= line.len() && single_space_split(line@) == Some(k as int),
            None => single_space_split(line@) is None,
        },
{
    if line.len() > SINGLE_SPACE_SPLIT_MAX_LEN {
        return None;
    }
    let mut st = SplitScan { saw_option: false, spec_tokens: 0, other_tokens: 0, split_at: None };
    let mut start: usize = 0;
    let mut i: usize = 0;
    while i < line.len()
        invariant
            start <= i <= line.len() <= SINGLE_SPACE_SPLIT_MAX_LEN,
            st.spec_tokens + st.other_tokens <= start,
            st.split_at is Some ==> st.split_at->0 <= line.len(),
            scan_from(line@, start as int, i as int, st@) == scan_from(line@, 0, 0, scan_start()),
        decreases line.len() - i,
    {
        if is_whitespace(line[i]) {
            if start < i {
                st = scan_one(st, &line[start..i], start);
            }
            start = i + 1;
        }
        i = i + 1;
    }
    if start < line.len() {
        st = scan_one(st, &line[start..line.len()], start);
    }
    if st.saw_option && st.split_at.is_some() && st.spec_tokens >= st.other_tokens {
        st.split_at
    } else {
        None
    }
}

/// The option part of a row: the trimmed line up to its first two-blank gap,
/// else up to the single-space split, else the whole trimmed line.
pub open spec fn spec_segment(line: Seq<char>) -> Seq<char> {
    let t = trimmed(line);
    match double_blank(t) {
        Some(k) => trimmed_end(t.subrange(0, k)),
        None => match single_space_split(t) {
            Some(k) => trimmed_end(t.subrange(0, k)),
            None => t,
        },
    }
}

/// Cuts the option part out of a line.
pub fn option_spec_segment(line: &[char]) -> (segment: &[char])
    ensures
        segment@ == spec_segment(line@),
{
    let t = trim(line);
    match split_on_double_space_index(t) {
        Some(k) => trim_end(&t[0..k]),
        None => match split_on_single_space_fallback(t) {
            Some(k) => trim_end(&t[0..k]),
            None => t,
        },
    }
}

/// The option part of `line` if it is an option row, as a list of one or none.
pub open spec fn row_of_line(line: Seq<char>) -> Seq<Seq<char>> {
    if is_option_row(line) && spec_segment(line).len() > 0 {
        seq![spec_segment(line)]
    } else {
        seq![]
    }
}

/// A line that a line feed ended, without the carriage return before it.
pub open spec fn ended_line(line: Seq<char>) -> Seq<char> {
    if line.len() > 0 && line.last() == '\r' {
        line.drop_last()
    } else {
        line
    }
}

/// The option rows of `content[start..]`, where the line being read began at
/// `start` and `i` is the next character to look at.
pub open spec fn rows_from(content: Seq<char>, start: int, i: int) -> Seq<Seq<char>>
    decreases content.len() - i,
{
    if i < 0 || i >= content.len() {
        if start < content.len() {
            row_of_line(content.subrange(start, content.len() as int))
        } else {
            seq![]
        }
    } else if content[i] == '\n' {
        row_of_line(ended_line(content.subrange(start, i))) + rows_from(content, i + 1, i + 1)
    } else {
        rows_from(content, start, i + 1)
    }
}

/// The option parts of the rows of `content`, in order.
pub open spec fn option_rows(content: Seq<char>) -> Seq<Seq<char>> {
    rows_from(content, 0, 0)
}

fn push_row(line: &[char], rows: &mut Vec<Vec<char>>)
    ensures
        views(final(rows)@) == views(old(rows)@) + row_of_line(line@),
{
    if looks_like_option_table(line) {
        let segment = option_spec_segment(line);
        if segment.len() > 0 {
            let row = to_vec(segment);
            rows.push(row);
        }
    }
}

/// Collects the option parts of the rows of a help text.
pub fn detect_option_rows(content: &[char]) -> (rows: Vec<Vec<char>>)
    ensures
        views(rows@) == option_rows(content@),
{
    let mut rows: Vec<Vec<char>> = Vec::new();
    let mut start: usize = 0;
    let mut i: usize = 0;
    while i < content.len()
        invariant
            start <= i <= content.len(),
            views(rows@) + rows_from(content@, start as int, i as int) =~= option_rows(content@),
        decreases content.len() - i,
    {
        if content[i] == '\n' {
            let end: usize = if start < i && content[i - 1] == '\r' {
                i - 1
            } else {
                i
            };
            assert(content@.subrange(start as int, end as int) =~= ended_line(
                content@.subrange(start as int, i as int),
            ));
            push_row(&content[start..end], &mut rows);
            start = i + 1;
        }
        i = i + 1;
    }
    if start < content.len() {
        push_row(&content[start..content.len()], &mut rows);
    }
    rows
}

/// A hint seen again: an attached form replaces a trailing one; otherwise
/// the hint already held stays.
pub open spec fn merge_hint(existing: Option<BindingHint>, incoming: Option<BindingHint>) -> Option<
    BindingHint,
> {
    match (existing, incoming) {
        (None, other) => other,
        (Some(current), None) => Some(current),
        (Some(current), Some(next)) => Some(prefer_arg(current, next)),
    }
}

/// Merges the hint of a repeated mention into the one already held.
pub fn merge_binding_hint(existing: Option<BindingHint>, incoming: Option<BindingHint>) -> (r:
    Option<BindingHint>)
    ensures
        r == merge_hint(existing, incoming),
{
    match (existing, incoming) {
        (None, other) => other,
        (Some(current), None) => Some(current),
        (Some(current), Some(next)) => Some(prefer_arg_spec(current, next)),
    }
}

/// The first index at or after `from` whose record holds `name`.
pub open spec fn index_from(records: Seq<HelpRecord>, name: Seq<char>, from: int) -> Option<int>
    decreases records.len() - from,
{
    if 0 <= from < records.len() {
        if records[from].option == name {
            Some(from)
        } else {
            index_from(records, name, from + 1)
        }
    } else {
        None
    }
}

/// The records after one more mention of `name`: a new name is appended, a
/// known one has its hint merged.
pub open spec fn record_option(records: Seq<HelpRecord>, name: Seq<char>, hint: Option<BindingHint>) -> Seq<
    HelpRecord,
> {
    match index_from(records, name, 0) {
        Some(k) => records.update(
            k,
            HelpRecord { option: name, binding: merge_hint(records[k].binding, hint) },
        ),
        None => records.push(HelpRecord { option: name, binding: hint }),
    }
}

/// The records after the first `n` of `names` were mentioned with `hint`.
pub open spec fn record_names(
    records: Seq<HelpRecord>,
    names: Seq<Seq<char>>,
    hint: Option<BindingHint>,
    n: int,
) -> Seq<HelpRecord>
    decreases n,
{
    if n <= 0 {
        records
    } else {
        record_option(record_names(records, names, hint, n - 1), names[n - 1], hint)
    }
}

/// The records after one more row.
pub open spec fn record_row(records: Seq<HelpRecord>, row: Seq<char>) -> Seq<HelpRecord> {
    let tokens = spec_tokens(row);
    record_names(records, row_names(tokens), row_hint(tokens), row_names(tokens).len() as int)
}

/// The records after the first `n` of `rows`.
pub open spec fn record_rows(rows: Seq<Seq<char>>, n: int) -> Seq<HelpRecord>
    decreases n,
{
    if n <= 0 {
        seq![]
    } else {
        record_row(record_rows(rows, n - 1), rows[n - 1])
    }
}

/// The option records of a help text: one per distinct option token, in the
/// order in which the tokens first appear, each with the merged hint of the
/// rows that mention it.
pub open spec fn help_options(content: Seq<char>) -> Seq<HelpRecord> {
    record_rows(option_rows(content), option_rows(content).len() as int)
}

fn record_mention(records: &mut Vec<HelpOption>, name: &[char], hint: Option<BindingHint>)
    ensures
        views(final(records)@) == record_option(views(old(records)@), name@, hint),
{
    let option = string_of(name);
    let mut k: usize = 0;
    while k < records.len()
        invariant
            k <= records.len(),
            option@ == name@,
            records@ == old(records)@,
            index_from(views(records@), name@, k as int) == index_from(views(records@), name@, 0),
        decreases records.len() - k,
    {
        if records[k].option == option {
            let merged = merge_binding_hint(records[k].binding, hint);
            records.set(k, HelpOption { option, binding: merged });
            return ;
        }
        k = k + 1;
    }
    records.push(HelpOption { option, binding: hint });
}

/// No two records hold the same option token.
pub open spec fn distinct_options(records: Seq<HelpRecord>) -> bool {
    forall|i: int, j: int|
        0 <= i < j < records.len() ==> (#[trigger] records[i]).option != (
        #[trigger] records[j]).option
}

/// A long or a short option token.
pub open spec fn is_option_name(name: Seq<char>) -> bool {
    is_long_name(name) || is_short_name(name)
}

/// Every record holds an option token.
pub open spec fn options_well_formed(records: Seq<HelpRecord>) -> bool {
    forall|i: int| 0 <= i < records.len() ==> is_option_name((#[trigger] records[i]).option)
}

pub open spec fn names_well_formed(names: Seq<Seq<char>>) -> bool {
    forall|i: int| 0 <= i < names.len() ==> is_option_name(#[trigger] names[i])
}

pub open spec fn tokens_well_formed(tokens: Seq<SpecTokenView>) -> bool {
    forall|i: int|
        0 <= i < tokens.len() ==> match #[trigger] tokens[i] {
            SpecTokenView::Name(name) => is_option_name(name),
            _ => true,
        }
}

proof fn lemma_index_from(records: Seq<HelpRecord>, name: Seq<char>, from: int)
    requires
        0 <= from,
    ensures
        match index_from(records, name, from) {
            Some(k) => from <= k < records.len() && records[k].option == name,
            None => forall|j: int| from <= j < records.len() ==> records[j].option != name,
        },
    decreases records.len() - from,
{
    if from < records.len() && records[from].option != name {
        lemma_index_from(records, name, from + 1);
    }
}

proof fn lemma_record_option(records: Seq<HelpRecord>, name: Seq<char>, hint: Option<BindingHint>)
    requires
        distinct_options(records),
        options_well_formed(records),
        is_option_name(name),
    ensures
        distinct_options(record_option(records, name, hint)),
        options_well_formed(record_option(records, name, hint)),
{
    lemma_index_from(records, name, 0);
}

proof fn lemma_record_names(
    records: Seq<HelpRecord>,
    names: Seq<Seq<char>>,
    hint: Option<BindingHint>,
    n: int,
)
    requires
        distinct_options(records),
        options_well_formed(records),
        names_well_formed(names),
        n <= names.len(),
    ensures
        distinct_options(record_names(records, names, hint, n)),
        options_well_formed(record_names(records, names, hint, n)),
    decreases n,
{
    if n > 0 {
        lemma_record_names(records, names, hint, n - 1);
        lemma_record_option(record_names(records, names, hint, n - 1), names[n - 1], hint);
    }
}

proof fn lemma_spec_tokens_from(spec: Seq<char>, start: int, i: int)
    requires
        0 <= i,
    ensures
        tokens_well_formed(spec_tokens_from(spec, start, i)),
    decreases spec.len() - i,
{
    if i >= spec.len() {
    } else if spec[i] == ',' || spec[i] == ';' || spec[i] == ':' || is_space(spec[i]) {
        lemma_spec_tokens_from(spec, i + 1, i + 1);
    } else {
        lemma_spec_tokens_from(spec, start, i + 1);
    }
}

proof fn lemma_names_upto(tokens: Seq<SpecTokenView>, n: int)
    requires
        tokens_well_formed(tokens),
        n <= tokens.len(),
    ensures
        names_well_formed(names_upto(tokens, n)),
    decreases n,
{
    if n > 0 {
        lemma_names_upto(tokens, n - 1);
    }
}

proof fn lemma_record_rows(rows: Seq<Seq<char>>, n: int)
    requires
        n <= rows.len(),
    ensures
        distinct_options(record_rows(rows, n)),
        options_well_formed(record_rows(rows, n)),
    decreases n,
{
    if n > 0 {
        lemma_record_rows(rows, n - 1);
        let tokens = spec_tokens(rows[n - 1]);
        lemma_spec_tokens_from(rows[n - 1], 0, 0);
        lemma_names_upto(tokens, tokens.len() as int);
        lemma_record_names(
            record_rows(rows, n - 1),
            row_names(tokens),
            row_hint(tokens),
            row_names(tokens).len() as int,
        );
    }
}

/// The records of a help text hold option tokens, and no token twice.
pub proof fn lemma_help_options(content: Seq<char>)
    ensures
        distinct_options(help_options(content)),
        options_well_formed(help_options(content)),
{
    lemma_record_rows(option_rows(content), option_rows(content).len() as int);
}

/// Extracts options and binding hints from help output.
pub fn extract_help_options(content: &str) -> (options: Vec<HelpOption>)
    ensures
        views(options@) == help_options(content@),
        distinct_options(views(options@)),
        options_well_formed(views(options@)),
{
    proof {
        lemma_help_options(content@);
    }
    let text = chars_of(content);
    let rows = detect_option_rows(text.as_slice());
    let mut options: Vec<HelpOption> = Vec::new();
    let mut r: usize = 0;
    while r < rows.len()
        invariant
            r <= rows.len(),
            views(options@) == record_rows(views(rows@), r as int),
        decreases rows.len() - r,
    {
        let tokens = tokenize_spec(rows[r].as_slice());
        if let Some(spec) = parse_option_spec(&tokens) {
            let mut n: usize = 0;
            while n < spec.options.len()
                invariant
                    n <= spec.options.len(),
                    views(spec.options@) == row_names(views(tokens@)),
                    views(options@) == record_names(
                        record_rows(views(rows@), r as int),
                        views(spec.options@),
                        spec.arg,
                        n as int,
                    ),
                decreases spec.options.len() - n,
            {
                record_mention(&mut options, spec.options[n].as_slice(), spec.arg);
                n = n + 1;
            }
        }
        r = r + 1;
    }
    options
}

} // verus!
