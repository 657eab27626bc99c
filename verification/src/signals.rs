//! Signal extraction: what the captured output of one probe says about the
//! option under test.

use crate::attribution::{
    argument_not_allowed_options, extract_argument_not_allowed_options,
    extract_invalid_argument_options, extract_missing_argument_options, extract_reported_options,
    invalid_argument_options, missing_argument_options, reported_options,
};
use crate::markers::{
    AMBIGUOUS_MARKERS, ARGUMENT_ERROR_MARKERS, ARGUMENT_NOT_ALLOWED_MARKERS, contains_any,
    find_marker, first_marker, has_marker, HELP_MARKER, INVALID_ARGUMENT_MARKERS,
    MISSING_ARGUMENT_MARKERS, UNRECOGNIZED_MARKERS,
};
use crate::text::{
    chars_of, contains, contains_in, debug_list, debug_listing, find, find_in, join2, join3, join4,
    lemma_find_from, lossy_text, lowercase, lowered, push_str, same, string_of, utf8_lossy, views,
};
use vstd::prelude::*;

verus! {

/// What one child invocation did, or why it could not be started.
#[derive(Debug, Clone)]
pub struct ExecutionAttempt {
    pub args: Vec<String>,
    pub exit_code: Option<i32>,
    pub stdout: Vec<u8>,
    pub stderr: Vec<u8>,
    pub spawn_error: Option<String>,
}

/// The signals derived from one probe. Each flag is attributed to the option
/// under test.
#[derive(Debug, Clone)]
pub struct AttemptAnalysis {
    pub unrecognized: bool,
    pub missing_arg: bool,
    pub arg_not_allowed: bool,
    pub invalid_arg: bool,
    pub ambiguous: bool,
    pub help_like: bool,
    pub argument_error: bool,
    pub exit_code: Option<i32>,
    pub notes: Vec<String>,
}

pub ghost struct AnalysisView {
    pub unrecognized: bool,
    pub missing_arg: bool,
    pub arg_not_allowed: bool,
    pub invalid_arg: bool,
    pub ambiguous: bool,
    pub help_like: bool,
    pub argument_error: bool,
    pub exit_code: Option<i32>,
    pub notes: Seq<Seq<char>>,
}

impl View for AttemptAnalysis {
    type V = AnalysisView;

    open spec fn view(&self) -> AnalysisView {
        AnalysisView {
            unrecognized: self.unrecognized,
            missing_arg: self.missing_arg,
            arg_not_allowed: self.arg_not_allowed,
            invalid_arg: self.invalid_arg,
            ambiguous: self.ambiguous,
            help_like: self.help_like,
            argument_error: self.argument_error,
            exit_code: self.exit_code,
            notes: views(self.notes@),
        }
    }
}

/// A reported token without a trailing `=VALUE`.
pub open spec fn value_stripped(token: Seq<char>) -> Seq<char> {
    match find(token, "="@) {
        Some(k) => token.subrange(0, k),
        None => token,
    }
}

/// Whether a reported token names the tested option, both in lower case:
/// they are equal, or equal once the reported token's `=VALUE` is dropped,
/// or the reported token is the single letter of a two-character `-X`.
pub open spec fn tokens_match(reported: Seq<char>, tested: Seq<char>) -> bool {
    reported == tested || value_stripped(reported) == tested || (reported.len() == 1
        && tested.len() == 2 && tested[0] == '-' && tested[1] == reported[0])
}

/// Whether a reported token names the tested option, both in lower case.
pub fn matches_lowered(reported: &[char], tested: &[char]) -> (b: bool)
    ensures
        b == tokens_match(reported@, tested@),
{
    if same(reported, tested) {
        return true;
    }
    let equals = chars_of("=");
    proof {
        lemma_find_from(reported@, "="@, 0);
    }
    let stripped = match find_in(reported, equals.as_slice()) {
        Some(k) => {
            &reported[0..k]
        },
        None => reported,
    };
    if same(stripped, tested) {
        return true;
    }
    reported.len() == 1 && tested.len() == 2 && tested[0] == '-' && tested[1] == reported[0]
}

/// Whether a reported token names the tested option, case aside.
pub open spec fn option_match(reported: Seq<char>, tested: Seq<char>) -> bool {
    tokens_match(lowercase(reported), lowercase(tested))
}

/// Whether a reported token names the tested option, case aside.
pub fn option_matches(reported: &str, tested: &str) -> (b: bool)
    ensures
        b == option_match(reported@, tested@),
{
    let reported_lower = chars_of(lowered(reported).as_str());
    let tested_lower = chars_of(lowered(tested).as_str());
    matches_lowered(reported_lower.as_slice(), tested_lower.as_slice())
}

/// Some reported token names the tested option.
pub open spec fn any_match(reported: Seq<Seq<char>>, tested: Seq<char>) -> bool {
    exists|i: int| 0 <= i < reported.len() && option_match(#[trigger] reported[i], tested)
}

/// Whether some reported token names the tested option.
pub fn any_matches(reported: &Vec<String>, tested: &str) -> (b: bool)
    ensures
        b == any_match(views(reported@), tested@),
{
    let mut i: usize = 0;
    while i < reported.len()
        invariant
            i <= reported.len(),
            forall|j: int| 0 <= j < i ==> !option_match(#[trigger] views(reported@)[j], tested@),
        decreases reported.len() - i,
    {
        assert(views(reported@)[i as int] == reported@[i as int]@);
        if option_matches(reported[i].as_str(), tested) {
            return true;
        }
        i = i + 1;
    }
    false
}

/// What one marker family reports: whether any token was extracted, whether
/// one of them names the tested option, and how the tokens are listed in notes.
#[derive(Debug, Clone)]
pub struct Attribution {
    pub found: bool,
    pub matched: bool,
    pub listing: String,
}

pub ghost struct AttributionView {
    pub found: bool,
    pub matched: bool,
    pub listing: Seq<char>,
}

impl View for Attribution {
    type V = AttributionView;

    open spec fn view(&self) -> AttributionView {
        AttributionView { found: self.found, matched: self.matched, listing: self.listing@ }
    }
}

/// What a marker family reports, given the tokens extracted for it.
pub open spec fn attribution_of(reported: Seq<Seq<char>>, tested: Seq<char>) -> AttributionView {
    AttributionView {
        found: reported.len() > 0,
        matched: any_match(reported, tested),
        listing: debug_list(reported),
    }
}

/// Holds the tokens extracted for a marker family against the tested option.
pub fn attribute(reported: &Vec<String>, tested: &str) -> (a: Attribution)
    ensures
        a@ == attribution_of(views(reported@), tested@),
{
    Attribution {
        found: reported.len() > 0,
        matched: any_matches(reported, tested),
        listing: debug_listing(reported),
    }
}

/// Everything that signal extraction reads off the captured output.
#[derive(Debug, Clone)]
pub struct Findings {
    /// The captured output, stdout then stderr, in lower case.
    pub lower: String,
    /// The option under test, in lower case.
    pub tested_lower: String,
    pub unrecognized: Attribution,
    pub missing: Attribution,
    pub not_allowed: Attribution,
    pub invalid: Attribution,
}

pub ghost struct FindingsView {
    pub lower: Seq<char>,
    pub tested_lower: Seq<char>,
    pub unrecognized: AttributionView,
    pub missing: AttributionView,
    pub not_allowed: AttributionView,
    pub invalid: AttributionView,
}

impl View for Findings {
    type V = FindingsView;

    open spec fn view(&self) -> FindingsView {
        FindingsView {
            lower: self.lower@,
            tested_lower: self.tested_lower@,
            unrecognized: self.unrecognized@,
            missing: self.missing@,
            not_allowed: self.not_allowed@,
            invalid: self.invalid@,
        }
    }
}

/// The captured output as text: stdout, then stderr.
pub open spec fn output_text(stdout: Seq<u8>, stderr: Seq<u8>) -> Seq<char> {
    utf8_lossy(stdout) + utf8_lossy(stderr)
}

/// What signal extraction reads off the output of a probe of `option`.
pub open spec fn findings_of(option: Seq<char>, stdout: Seq<u8>, stderr: Seq<u8>) -> FindingsView {
    let output = output_text(stdout, stderr);
    FindingsView {
        lower: lowercase(output),
        tested_lower: lowercase(option),
        unrecognized: attribution_of(reported_options(output), option),
        missing: attribution_of(missing_argument_options(output), option),
        not_allowed: attribution_of(argument_not_allowed_options(output), option),
        invalid: attribution_of(invalid_argument_options(output), option),
    }
}

/// Reads the captured output of `attempt` for the option under test.
pub fn gather_findings(option: &str, attempt: &ExecutionAttempt) -> (f: Findings)
    ensures
        f@ == findings_of(option@, attempt.stdout@, attempt.stderr@),
{
    let mut buf = chars_of(lossy_text(attempt.stdout.as_slice()).as_str());
    push_str(&mut buf, lossy_text(attempt.stderr.as_slice()).as_str());
    let output = string_of(buf.as_slice());
    let reported = extract_reported_options(output.as_str());
    let missing = extract_missing_argument_options(output.as_str());
    let not_allowed = extract_argument_not_allowed_options(output.as_str());
    let invalid = extract_invalid_argument_options(output.as_str());
    Findings {
        lower: lowered(output.as_str()),
        tested_lower: lowered(option),
        unrecognized: attribute(&reported, option),
        missing: attribute(&missing, option),
        not_allowed: attribute(&not_allowed, option),
        invalid: attribute(&invalid, option),
    }
}

/// Diagnostics that name no option but belong to one, phrase by phrase.
pub const INVALID_FALLBACK_PHRASES: [&'static str; 2] = ["invalid tab size", "invalid line width"];

/// The options that the phrases of `INVALID_FALLBACK_PHRASES` belong to.
pub const INVALID_FALLBACK_OPTIONS: [&'static str; 2] = ["--tabsize", "--width"];

pub open spec fn spawn_note(err: Seq<char>) -> Seq<char> {
    "spawn failed: "@ + err
}

pub open spec fn no_exit_note() -> Seq<char> {
    "terminated without exit code"@
}

/// The note for an unrecognized-option marker that is not attributed to the
/// tested option.
pub open spec fn unrecognized_note(marker: Seq<char>, a: AttributionView) -> Seq<char> {
    if a.found {
        "unrecognized option marker ("@ + marker + ") for "@ + a.listing
    } else {
        "unrecognized option marker ("@ + marker + ") without option attribution"@
    }
}

pub open spec fn unrecognized_marker(lower: Seq<char>) -> Option<Seq<char>> {
    first_marker(lower, views(UNRECOGNIZED_MARKERS@))
}

pub open spec fn ambiguous_marker(lower: Seq<char>) -> Option<Seq<char>> {
    first_marker(lower, views(AMBIGUOUS_MARKERS@))
}

pub open spec fn ambiguous_note(marker: Seq<char>) -> Seq<char> {
    "ambiguous option response ("@ + marker + ")"@
}

/// An unrecognized-option marker occurs and is attributed to the tested option.
pub open spec fn is_unrecognized(f: FindingsView) -> bool {
    unrecognized_marker(f.lower) is Some && f.unrecognized.matched
}

pub open spec fn unrecognized_notes(f: FindingsView) -> Seq<Seq<char>> {
    match unrecognized_marker(f.lower) {
        Some(marker) => if f.unrecognized.matched {
            seq![]
        } else {
            seq![unrecognized_note(marker, f.unrecognized)]
        },
        None => seq![],
    }
}

/// A missing-argument marker without any option named is attributed to the
/// tested option.
/// A signal is attributed to the tested option where a marker of its
/// family occurs in the output and a token extracted for the family names
/// the option.
pub open spec fn is_attributed(lower: Seq<char>, markers: Seq<Seq<char>>, a: AttributionView) -> bool {
    has_marker(lower, markers) && a.matched
}

pub open spec fn is_missing_unattributed(f: FindingsView) -> bool {
    !f.missing.found && has_marker(f.lower, views(MISSING_ARGUMENT_MARKERS@))
}

/// A missing-argument diagnostic is attributed to the tested option, by a token or for want of any.
pub open spec fn is_missing_arg(f: FindingsView) -> bool {
    is_attributed(f.lower, views(MISSING_ARGUMENT_MARKERS@), f.missing) || is_missing_unattributed(
        f,
    )
}

/// An argument-not-allowed diagnostic is attributed to the tested option.
pub open spec fn is_arg_not_allowed(f: FindingsView) -> bool {
    is_attributed(f.lower, views(ARGUMENT_NOT_ALLOWED_MARKERS@), f.not_allowed)
}

pub open spec fn missing_notes(f: FindingsView) -> Seq<Seq<char>> {
    if f.missing.found && !f.missing.matched {
        seq!["missing argument marker for "@ + f.missing.listing]
    } else if is_missing_unattributed(f) {
        seq!["missing argument marker without option attribution; attributed to tested option"@]
    } else {
        seq![]
    }
}

pub open spec fn not_allowed_notes(f: FindingsView) -> Seq<Seq<char>> {
    if f.not_allowed.found && !f.not_allowed.matched {
        seq!["argument not allowed marker for "@ + f.not_allowed.listing]
    } else if !f.not_allowed.found && has_marker(f.lower, views(ARGUMENT_NOT_ALLOWED_MARKERS@)) {
        seq!["argument not allowed marker without option attribution"@]
    } else {
        seq![]
    }
}

pub open spec fn invalid_notes(f: FindingsView) -> Seq<Seq<char>> {
    if f.invalid.found && !f.invalid.matched {
        seq!["invalid argument marker for "@ + f.invalid.listing]
    } else if !f.invalid.found && has_marker(f.lower, views(INVALID_ARGUMENT_MARKERS@)) {
        seq!["invalid argument marker without option attribution"@]
    } else {
        seq![]
    }
}

/// The first fallback entry, from index `i` on, whose phrase occurs in the
/// output and whose option is the tested one.
pub open spec fn fallback_from(lower: Seq<char>, tested_lower: Seq<char>, i: int) -> Option<int>
    decreases INVALID_FALLBACK_PHRASES@.len() - i,
{
    if 0 <= i < INVALID_FALLBACK_PHRASES@.len() {
        if contains(lower, INVALID_FALLBACK_PHRASES@[i]@) && tokens_match(
            INVALID_FALLBACK_OPTIONS@[i]@,
            tested_lower,
        ) {
            Some(i)
        } else {
            fallback_from(lower, tested_lower, i + 1)
        }
    } else {
        None
    }
}

/// The fallback entry that attributes an invalid-argument diagnostic to the
/// tested option, where no extracted token does.
pub open spec fn invalid_fallback(f: FindingsView) -> Option<int> {
    if is_attributed(f.lower, views(INVALID_ARGUMENT_MARKERS@), f.invalid) {
        None
    } else {
        fallback_from(f.lower, f.tested_lower, 0)
    }
}

pub open spec fn fallback_note(i: int) -> Seq<char> {
    "invalid argument fallback ("@ + INVALID_FALLBACK_PHRASES@[i]@ + ") attributed to "@
        + INVALID_FALLBACK_OPTIONS@[i]@
}

pub open spec fn fallback_notes(f: FindingsView) -> Seq<Seq<char>> {
    match invalid_fallback(f) {
        Some(i) => seq![fallback_note(i)],
        None => seq![],
    }
}

/// An invalid-argument diagnostic is attributed to the tested option, by a token or by the fallback table.
pub open spec fn is_invalid_arg(f: FindingsView) -> bool {
    is_attributed(f.lower, views(INVALID_ARGUMENT_MARKERS@), f.invalid) || invalid_fallback(f)
        is Some
}

pub open spec fn ambiguous_notes(f: FindingsView) -> Seq<Seq<char>> {
    match ambiguous_marker(f.lower) {
        Some(marker) => seq![ambiguous_note(marker)],
        None => seq![],
    }
}

pub open spec fn exit_notes(exit_code: Option<i32>) -> Seq<Seq<char>> {
    if exit_code is None {
        seq![no_exit_note()]
    } else {
        seq![]
    }
}

/// The analysis of one probe from what was read off its output. A probe that
/// could not be started sets no flag.
pub open spec fn analysis_of(spawn_error: Option<Seq<char>>, exit_code: Option<i32>, f: FindingsView) -> AnalysisView {
    match spawn_error {
        Some(err) => AnalysisView {
            unrecognized: false,
            missing_arg: false,
            arg_not_allowed: false,
            invalid_arg: false,
            ambiguous: false,
            help_like: false,
            argument_error: false,
            exit_code,
            notes: seq![spawn_note(err)],
        },
        None => AnalysisView {
            unrecognized: is_unrecognized(f),
            missing_arg: is_missing_arg(f),
            arg_not_allowed: is_arg_not_allowed(f),
            invalid_arg: is_invalid_arg(f),
            ambiguous: ambiguous_marker(f.lower) is Some,
            help_like: contains(f.lower, HELP_MARKER@),
            argument_error: has_marker(f.lower, views(ARGUMENT_ERROR_MARKERS@)),
            exit_code,
            notes: exit_notes(exit_code) + unrecognized_notes(f) + missing_notes(f)
                + not_allowed_notes(f) + invalid_notes(f) + fallback_notes(f) + ambiguous_notes(f),
        },
    }
}

/// Appends a note.
pub fn push_note(notes: &mut Vec<String>, note: String)
    ensures
        views(final(notes)@) == views(old(notes)@) + seq![note@],
{
    notes.push(note);
}

pub fn unrecognized_note_text(marker: &str, a: &Attribution) -> (note: String)
    ensures
        note@ == unrecognized_note(marker@, a@),
{
    let marker_chars = chars_of(marker);
    if a.found {
        let listing = chars_of(a.listing.as_str());
        join4("unrecognized option marker (", marker_chars.as_slice(), ") for ", listing.as_slice())
    } else {
        join3(
            "unrecognized option marker (",
            marker_chars.as_slice(),
            ") without option attribution",
        )
    }
}

pub fn ambiguous_note_text(marker: &str) -> (note: String)
    ensures
        note@ == ambiguous_note(marker@),
{
    let marker_chars = chars_of(marker);
    join3("ambiguous option response (", marker_chars.as_slice(), ")")
}

fn note_unrecognized(lower: &[char], f: &Findings, notes: &mut Vec<String>) -> (flag: bool)
    requires
        lower@ == f.lower@,
    ensures
        flag == is_unrecognized(f@),
        views(final(notes)@) == views(old(notes)@) + unrecognized_notes(f@),
{
    match find_marker(lower, UNRECOGNIZED_MARKERS.as_slice()) {
        Some(marker) => {
            if f.unrecognized.matched {
                true
            } else {
                push_note(notes, unrecognized_note_text(marker, &f.unrecognized));
                false
            }
        },
        None => {
            false
        },
    }
}

fn note_missing(lower: &[char], f: &Findings, notes: &mut Vec<String>) -> (flag: bool)
    requires
        lower@ == f.lower@,
    ensures
        flag == is_missing_arg(f@),
        views(final(notes)@) == views(old(notes)@) + missing_notes(f@),
{
    let marked = contains_any(lower, MISSING_ARGUMENT_MARKERS.as_slice());
    if f.missing.found && !f.missing.matched {
        let listing = chars_of(f.missing.listing.as_str());
        push_note(notes, join2("missing argument marker for ", listing.as_slice()));
        false
    } else if !f.missing.found && marked {
        push_note(
            notes,
            "missing argument marker without option attribution; attributed to tested option".to_owned(),
        );
        true
    } else {
        marked && f.missing.matched
    }
}

fn note_not_allowed(lower: &[char], f: &Findings, notes: &mut Vec<String>) -> (flag: bool)
    requires
        lower@ == f.lower@,
    ensures
        flag == is_arg_not_allowed(f@),
        views(final(notes)@) == views(old(notes)@) + not_allowed_notes(f@),
{
    let marked = contains_any(lower, ARGUMENT_NOT_ALLOWED_MARKERS.as_slice());
    if f.not_allowed.found && !f.not_allowed.matched {
        let listing = chars_of(f.not_allowed.listing.as_str());
        push_note(notes, join2("argument not allowed marker for ", listing.as_slice()));
    } else if !f.not_allowed.found && marked {
        push_note(notes, "argument not allowed marker without option attribution".to_owned());
    }
    marked && f.not_allowed.matched
}

fn note_invalid(lower: &[char], f: &Findings, notes: &mut Vec<String>)
    requires
        lower@ == f.lower@,
    ensures
        views(final(notes)@) == views(old(notes)@) + invalid_notes(f@),
{
    if f.invalid.found && !f.invalid.matched {
        let listing = chars_of(f.invalid.listing.as_str());
        push_note(notes, join2("invalid argument marker for ", listing.as_slice()));
    } else if !f.invalid.found && contains_any(lower, INVALID_ARGUMENT_MARKERS.as_slice()) {
        push_note(notes, "invalid argument marker without option attribution".to_owned());
    }
}

fn find_fallback(lower: &[char], tested_lower: &[char]) -> (r: Option<usize>)
    ensures
        match r {
            Some(i) => i < 2 && fallback_from(lower@, tested_lower@, 0) == Some(i as int),
            None => fallback_from(lower@, tested_lower@, 0) is None,
        },
{
    let mut i: usize = 0;
    while i < 2
        invariant
            i <= 2,
            INVALID_FALLBACK_PHRASES@.len() == 2,
            fallback_from(lower@, tested_lower@, i as int) == fallback_from(
                lower@,
                tested_lower@,
                0,
            ),
        decreases 2 - i,
    {
        let phrase = chars_of(INVALID_FALLBACK_PHRASES[i]);
        let option = chars_of(INVALID_FALLBACK_OPTIONS[i]);
        if contains_in(lower, phrase.as_slice()) && matches_lowered(
            option.as_slice(),
            tested_lower,
        ) {
            return Some(i);
        }
        i = i + 1;
    }
    None
}

fn note_fallback(lower: &[char], f: &Findings, notes: &mut Vec<String>) -> (flag: bool)
    requires
        lower@ == f.lower@,
    ensures
        flag == is_invalid_arg(f@),
        views(final(notes)@) == views(old(notes)@) + fallback_notes(f@),
{
    if f.invalid.matched && contains_any(lower, INVALID_ARGUMENT_MARKERS.as_slice()) {
        return true;
    }
    let tested_lower = chars_of(f.tested_lower.as_str());
    match find_fallback(lower, tested_lower.as_slice()) {
        Some(i) => {
            let phrase = chars_of(INVALID_FALLBACK_PHRASES[i]);
            let option = chars_of(INVALID_FALLBACK_OPTIONS[i]);
            push_note(
                notes,
                join4(
                    "invalid argument fallback (",
                    phrase.as_slice(),
                    ") attributed to ",
                    option.as_slice(),
                ),
            );
            true
        },
        None => {
            false
        },
    }
}

fn note_ambiguous(lower: &[char], f: &Findings, notes: &mut Vec<String>) -> (flag: bool)
    requires
        lower@ == f.lower@,
    ensures
        flag == (ambiguous_marker(f@.lower) is Some),
        views(final(notes)@) == views(old(notes)@) + ambiguous_notes(f@),
{
    match find_marker(lower, AMBIGUOUS_MARKERS.as_slice()) {
        Some(marker) => {
            push_note(notes, ambiguous_note_text(marker));
            true
        },
        None => {
            false
        },
    }
}

/// Derives the analysis of one probe from what was read off its output.
pub fn analysis_from_findings(
    spawn_error: &Option<String>,
    exit_code: Option<i32>,
    f: &Findings,
) -> (analysis: AttemptAnalysis)
    ensures
        analysis@ == analysis_of(crate::schema::text_view(*spawn_error), exit_code, f@),
{
    let mut notes: Vec<String> = Vec::new();
    if let Some(err) = spawn_error {
        let err_chars = chars_of(err.as_str());
        push_note(&mut notes, join2("spawn failed: ", err_chars.as_slice()));
        return AttemptAnalysis {
            unrecognized: false,
            missing_arg: false,
            arg_not_allowed: false,
            invalid_arg: false,
            ambiguous: false,
            help_like: false,
            argument_error: false,
            exit_code,
            notes,
        };
    }
    if exit_code.is_none() {
        push_note(&mut notes, "terminated without exit code".to_owned());
    }
    let lower_text = chars_of(f.lower.as_str());
    let lower = lower_text.as_slice();
    let unrecognized = note_unrecognized(lower, f, &mut notes);
    let missing_arg = note_missing(lower, f, &mut notes);
    let arg_not_allowed = note_not_allowed(lower, f, &mut notes);
    note_invalid(lower, f, &mut notes);
    let invalid_arg = note_fallback(lower, f, &mut notes);
    let ambiguous = note_ambiguous(lower, f, &mut notes);
    let usage = chars_of(HELP_MARKER);
    AttemptAnalysis {
        unrecognized,
        missing_arg,
        arg_not_allowed,
        invalid_arg,
        ambiguous,
        help_like: contains_in(lower, usage.as_slice()),
        argument_error: contains_any(lower, ARGUMENT_ERROR_MARKERS.as_slice()),
        exit_code,
        notes,
    }
}

} // verus!
