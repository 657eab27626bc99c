//! Probe classification and evidence for option existence and binding.
//!
//! Classification is conservative: it relies on explicit error markers that
//! are attributed to the option under test, not on exit status alone.

use crate::binding::{BindingExpectation, claim_rules, classify_binding_attempts};
use crate::contract::{ENV_LC_ALL, env_map, env_pairs, ENV_TERM, ENV_TZ};
use crate::digest::{hash_bytes, tagged_hash};
use crate::markers::{
    AMBIGUOUS_MARKERS, ARGUMENT_ERROR_MARKERS, contains_any, find_marker, has_marker,
    UNRECOGNIZED_MARKERS,
};
use crate::schema::{EnvSnapshot, Evidence, EvidenceView, text_view, ValidationStatus};
use crate::signals::{
    ambiguous_marker, ambiguous_note, ambiguous_note_text, analysis_from_findings, analysis_of,
    AttemptAnalysis, ExecutionAttempt, Findings, findings_of, FindingsView, gather_findings,
    is_unrecognized, no_exit_note, push_note, spawn_note, unrecognized_marker, unrecognized_note,
    unrecognized_note_text,
};
use crate::text::{
    chars_of, contains, contains_in, decimal, ends_with, find, find_in, has_prefix, has_suffix,
    join2, join_texts, joined, lemma_find_from, lemma_views_push, lowercase, lowered, push_all,
    push_decimal, push_str, starts_with, string_of, views,
};
use vstd::prelude::*;

verus! {

/// The value that probes bind to an option to see how it is taken.
pub const BINDING_DUMMY_VALUE: &'static str = "__bvm__";

/// Default validation environment (`LC_ALL=C`, `TZ=UTC`, `TERM=dumb`).
pub fn validation_env() -> (env: EnvSnapshot)
    ensures
        env.locale@ == ENV_LC_ALL@,
        env.tz@ == ENV_TZ@,
        env.term@ == ENV_TERM@,
{
    EnvSnapshot {
        locale: ENV_LC_ALL.to_owned(),
        tz: ENV_TZ.to_owned(),
        term: ENV_TERM.to_owned(),
    }
}

/// What every option claim ID begins with.
pub const CLAIM_PREFIX: &'static str = "claim:option:opt=";

/// The option that a claim ID with the given ending names: what stands
/// between the prefix and the ending, if that is not empty.
pub open spec fn claim_option(id: Seq<char>, suffix: Seq<char>) -> Option<Seq<char>> {
    if starts_with(id, CLAIM_PREFIX@) && ends_with(id, suffix) && id.len() > CLAIM_PREFIX@.len()
        + suffix.len() {
        Some(id.subrange(CLAIM_PREFIX@.len() as int, id.len() - suffix.len()))
    } else {
        None
    }
}

fn option_from_id(id: &str, suffix: &str) -> (r: Option<String>)
    ensures
        text_view(r) == claim_option(id@, suffix@),
{
    let id_chars = chars_of(id);
    let prefix = chars_of(CLAIM_PREFIX);
    let ending = chars_of(suffix);
    let text = id_chars.as_slice();
    if !has_prefix(text, prefix.as_slice()) || !has_suffix(text, ending.as_slice()) {
        return None;
    }
    if text.len() - prefix.len() <= ending.len() {
        return None;
    }
    Some(string_of(&text[prefix.len()..text.len() - ending.len()]))
}

/// Extract the option token from an option existence claim ID.
pub fn option_from_claim_id(id: &str) -> (r: Option<String>)
    ensures
        text_view(r) == claim_option(id@, ":exists"@),
{
    option_from_id(id, ":exists")
}

/// Extract the option token from a parameter binding claim ID.
pub fn option_from_binding_claim_id(id: &str) -> (r: Option<String>)
    ensures
        text_view(r) == claim_option(id@, ":binding"@),
{
    option_from_id(id, ":binding")
}

/// The notes of a confirmed existence: a non-zero exit and a generic
/// argument error are recorded, and neither lowers the verdict.
pub open spec fn confirmed_notes(code: i32, argument_error: bool) -> Seq<Seq<char>> {
    (if code != 0 {
        seq!["nonzero exit ("@ + decimal(code as int) + ") without unrecognized option marker"@]
    } else {
        seq![]
    }) + (if argument_error {
        seq!["argument error reported"@]
    } else {
        seq![]
    })
}

/// The existence verdict of one probe with its reason.
pub open spec fn existence_verdict(
    spawn_error: Option<Seq<char>>,
    exit_code: Option<i32>,
    f: FindingsView,
) -> (ValidationStatus, Option<Seq<char>>) {
    if spawn_error is Some {
        (ValidationStatus::Undetermined, Some(spawn_note(spawn_error->0)))
    } else if exit_code is None {
        (ValidationStatus::Undetermined, Some(no_exit_note()))
    } else if unrecognized_marker(f.lower) is Some {
        if f.unrecognized.matched {
            (ValidationStatus::Refuted, None)
        } else {
            (
                ValidationStatus::Undetermined,
                Some(unrecognized_note(unrecognized_marker(f.lower)->0, f.unrecognized)),
            )
        }
    } else if ambiguous_marker(f.lower) is Some {
        (ValidationStatus::Undetermined, Some(ambiguous_note(ambiguous_marker(f.lower)->0)))
    } else {
        let notes = confirmed_notes(
            exit_code->0,
            has_marker(f.lower, views(ARGUMENT_ERROR_MARKERS@)),
        );
        (
            ValidationStatus::Confirmed,
            if notes.len() == 0 {
                None
            } else {
                Some(joined(notes, "; "@))
            },
        )
    }
}

/// Classifies the existence of an option from what was read off its probe.
pub fn classify_findings(spawn_error: &Option<String>, exit_code: Option<i32>, f: &Findings) -> (r: (
    ValidationStatus,
    Option<String>,
))
    ensures
        (r.0, text_view(r.1)) == existence_verdict(text_view(*spawn_error), exit_code, f@),
{
    if let Some(err) = spawn_error {
        let err_chars = chars_of(err.as_str());
        return (ValidationStatus::Undetermined, Some(join2("spawn failed: ", err_chars.as_slice())));
    }
    let code = match exit_code {
        Some(code) => code,
        None => {
            return (
                ValidationStatus::Undetermined,
                Some("terminated without exit code".to_owned()),
            );
        },
    };
    let lower_text = chars_of(f.lower.as_str());
    let lower = lower_text.as_slice();
    if let Some(marker) = find_marker(lower, UNRECOGNIZED_MARKERS.as_slice()) {
        if f.unrecognized.matched {
            return (ValidationStatus::Refuted, None);
        }
        return (
            ValidationStatus::Undetermined,
            Some(unrecognized_note_text(marker, &f.unrecognized)),
        );
    }
    if let Some(marker) = find_marker(lower, AMBIGUOUS_MARKERS.as_slice()) {
        return (ValidationStatus::Undetermined, Some(ambiguous_note_text(marker)));
    }
    let mut notes: Vec<String> = Vec::new();
    if code != 0 {
        let mut buf = chars_of("nonzero exit (");
        push_decimal(code, &mut buf);
        push_str(&mut buf, ") without unrecognized option marker");
        push_note(&mut notes, string_of(buf.as_slice()));
    }
    if contains_any(lower, ARGUMENT_ERROR_MARKERS.as_slice()) {
        push_note(&mut notes, "argument error reported".to_owned());
    }
    assert(views(notes@) =~= confirmed_notes(
        code,
        has_marker(f@.lower, views(ARGUMENT_ERROR_MARKERS@)),
    ));
    let note = if notes.len() == 0 {
        None
    } else {
        Some(join_texts(&notes, "; "))
    };
    (ValidationStatus::Confirmed, note)
}

/// An option is refuted exactly when its probe ran to an exit code and an
/// unrecognized-option marker was attributed to it.
pub proof fn lemma_refuted_iff_unrecognized(
    spawn_error: Option<Seq<char>>,
    exit_code: Option<i32>,
    f: FindingsView,
)
    ensures
        existence_verdict(spawn_error, exit_code, f).0 == ValidationStatus::Refuted <==> (
        spawn_error is None && exit_code is Some && is_unrecognized(f)),
        spawn_error is None ==> analysis_of(spawn_error, exit_code, f).unrecognized
            == is_unrecognized(f),
{
}

/// Classifies the existence of `option` from one probe of it.
pub fn classify_attempt(option: &str, attempt: &ExecutionAttempt) -> (r: (
    ValidationStatus,
    Option<String>,
))
    ensures
        (r.0, text_view(r.1)) == existence_verdict(
            text_view(attempt.spawn_error),
            attempt.exit_code,
            findings_of(option@, attempt.stdout@, attempt.stderr@),
        ),
{
    let findings = gather_findings(option, attempt);
    classify_findings(&attempt.spawn_error, attempt.exit_code, &findings)
}

/// Derives the signals of one probe of `option`.
pub fn analyze_binding_attempt(option: &str, attempt: &ExecutionAttempt) -> (analysis:
    AttemptAnalysis)
    ensures
        analysis@ == analysis_of(
            text_view(attempt.spawn_error),
            attempt.exit_code,
            findings_of(option@, attempt.stdout@, attempt.stderr@),
        ),
{
    let findings = gather_findings(option, attempt);
    analysis_from_findings(&attempt.spawn_error, attempt.exit_code, &findings)
}

/// The notes of a probe's evidence: its label, then the notes of its
/// analysis.
pub open spec fn probe_notes(probe: Seq<char>, notes: Seq<Seq<char>>) -> Seq<char> {
    joined(seq!["probe="@ + probe] + notes, "; "@)
}

/// Builds the notes of a probe for its evidence.
pub fn build_attempt_notes(probe: &str, analysis: &AttemptAnalysis) -> (notes: Option<String>)
    ensures
        text_view(notes) == Some(probe_notes(probe@, analysis@.notes)),
{
    let probe_chars = chars_of(probe);
    let mut parts: Vec<String> = Vec::new();
    parts.push(join2("probe=", probe_chars.as_slice()));
    let mut i: usize = 0;
    while i < analysis.notes.len()
        invariant
            i <= analysis.notes.len(),
            views(parts@) == seq!["probe="@ + probe@] + views(analysis.notes@).take(i as int),
        decreases analysis.notes.len() - i,
    {
        let note = analysis.notes[i].clone();
        proof {
            lemma_views_push(parts@, note);
        }
        parts.push(note);
        i = i + 1;
    }
    assert(views(analysis.notes@).take(analysis.notes.len() as int) =~= views(analysis.notes@));
    Some(join_texts(&parts, "; "))
}

/// The evidence of a probe: its arguments and exit code as they were, the
/// environment it ran in, and hashes in place of what it printed.
pub open spec fn evidence_of(
    attempt: ExecutionAttempt,
    env: EnvSnapshot,
    notes: Option<Seq<char>>,
) -> EvidenceView {
    EvidenceView {
        args: views(attempt.args@),
        env: env_pairs(env),
        exit_code: attempt.exit_code,
        stdout: Some(tagged_hash(attempt.stdout@)),
        stderr: Some(tagged_hash(attempt.stderr@)),
        notes,
    }
}

/// Builds the evidence of a probe.
pub fn evidence_for_attempt(
    attempt: ExecutionAttempt,
    env: &EnvSnapshot,
    probe: &str,
    analysis: &AttemptAnalysis,
) -> (evidence: Evidence)
    ensures
        evidence@ == evidence_of(attempt, *env, Some(probe_notes(probe@, analysis@.notes))),
{
    let stdout = hash_bytes(attempt.stdout.as_slice());
    let stderr = hash_bytes(attempt.stderr.as_slice());
    Evidence {
        args: attempt.args,
        env: env_map(env),
        exit_code: attempt.exit_code,
        stdout: Some(stdout),
        stderr: Some(stderr),
        notes: build_attempt_notes(probe, analysis),
    }
}

/// A claim about an option, as far as validation reads it.
#[derive(Debug, Clone)]
pub struct Claim {
    pub id: String,
    pub text: String,
    pub raw_excerpt: String,
}

#[derive(Debug, Clone, Copy, PartialEq, Eq, Structural)]
pub enum ValidationMethod {
    AcceptanceTest,
}

#[derive(Debug, Clone, Copy, PartialEq, Eq, Structural)]
pub enum Determinism {
    Deterministic,
}

/// The outcome of validating one claim.
#[derive(Debug, Clone)]
pub struct ValidationResult {
    pub claim_id: String,
    pub status: ValidationStatus,
    pub method: ValidationMethod,
    pub determinism: Option<Determinism>,
    pub attempts: Vec<Evidence>,
    pub observed: Option<String>,
    pub reason: Option<String>,
}

pub ghost struct ResultView {
    pub claim_id: Seq<char>,
    pub status: ValidationStatus,
    pub attempts: Seq<EvidenceView>,
    pub observed: Option<Seq<char>>,
    pub reason: Option<Seq<char>>,
}

impl View for ValidationResult {
    type V = ResultView;

    open spec fn view(&self) -> ResultView {
        ResultView {
            claim_id: self.claim_id@,
            status: self.status,
            attempts: views(self.attempts@),
            observed: text_view(self.observed),
            reason: text_view(self.reason),
        }
    }
}

/// What a binding claim says of its option.
#[derive(Debug, Clone)]
pub struct BindingSpec {
    pub option: String,
    pub expectation: Option<BindingExpectation>,
    pub form: Option<String>,
}

/// The arguments of the probe that leaves the value out.
pub open spec fn missing_argv(option: Seq<char>) -> Seq<Seq<char>> {
    seq![option, "--help"@]
}

/// Builds the arguments of the probe that leaves the value out.
pub fn missing_arg_args(option: &str) -> (args: Vec<String>)
    ensures
        views(args@) == missing_argv(option@),
{
    let mut args: Vec<String> = Vec::new();
    args.push(option.to_owned());
    args.push("--help".to_owned());
    args
}

/// The result of validating an existence claim from the probe of its option.
pub open spec fn existence_result(
    claim_id: Seq<char>,
    option: Seq<char>,
    env: EnvSnapshot,
    attempt: ExecutionAttempt,
) -> ResultView {
    let verdict = existence_verdict(
        text_view(attempt.spawn_error),
        attempt.exit_code,
        findings_of(option, attempt.stdout@, attempt.stderr@),
    );
    ResultView {
        claim_id,
        status: verdict.0,
        attempts: seq![evidence_of(attempt, env, verdict.1)],
        observed: None,
        reason: None,
    }
}

/// Classifies an option existence claim from the probe `<option> --help`,
/// whose outcome is `attempt`.
pub fn validate_option_existence(
    claim_id: &str,
    option: &str,
    env: &EnvSnapshot,
    attempt: ExecutionAttempt,
) -> (result: ValidationResult)
    ensures
        result@ == existence_result(claim_id@, option@, *env, attempt),
        result.method == ValidationMethod::AcceptanceTest,
        result.determinism == Some(Determinism::Deterministic),
{
    let (status, notes) = classify_attempt(option, &attempt);
    let stdout = hash_bytes(attempt.stdout.as_slice());
    let stderr = hash_bytes(attempt.stderr.as_slice());
    let evidence = Evidence {
        args: attempt.args,
        env: env_map(env),
        exit_code: attempt.exit_code,
        stdout: Some(stdout),
        stderr: Some(stderr),
        notes,
    };
    let mut attempts: Vec<Evidence> = Vec::new();
    attempts.push(evidence);
    assert(views(attempts@) =~= seq![evidence@]);
    ValidationResult {
        claim_id: claim_id.to_owned(),
        status,
        method: ValidationMethod::AcceptanceTest,
        determinism: Some(Determinism::Deterministic),
        attempts,
        observed: None,
        reason: None,
    }
}

/// What a claim expects, read off its lower-cased text, else off the form
/// of its excerpt.
pub open spec fn expectation_of(lower_text: Seq<char>, raw_excerpt: Seq<char>) -> Option<
    BindingExpectation,
> {
    if contains(lower_text, "optional value"@) {
        Some(BindingExpectation::Optional)
    } else if contains(lower_text, "requires a value"@) {
        Some(BindingExpectation::Required)
    } else if contains(raw_excerpt, "[="@) {
        Some(BindingExpectation::Optional)
    } else if contains(raw_excerpt, "="@) {
        Some(BindingExpectation::Required)
    } else {
        None
    }
}

fn holds(text: &[char], phrase: &str) -> (b: bool)
    ensures
        b == contains(text@, phrase@),
{
    let chars = chars_of(phrase);
    contains_in(text, chars.as_slice())
}

/// Reads what a claim expects off its lower-cased text and its excerpt.
pub fn expectation_from(lower_text: &[char], raw_excerpt: &[char]) -> (r: Option<
    BindingExpectation,
>)
    ensures
        r == expectation_of(lower_text@, raw_excerpt@),
{
    if holds(lower_text, "optional value") {
        Some(BindingExpectation::Optional)
    } else if holds(lower_text, "requires a value") {
        Some(BindingExpectation::Required)
    } else if holds(raw_excerpt, "[=") {
        Some(BindingExpectation::Optional)
    } else if holds(raw_excerpt, "=") {
        Some(BindingExpectation::Required)
    } else {
        None
    }
}

/// Reads what a claim expects of its option.
pub fn parse_binding_expectation(text: &str, raw_excerpt: &str) -> (r: Option<BindingExpectation>)
    ensures
        r == expectation_of(lowercase(text@), raw_excerpt@),
{
    let lower = chars_of(lowered(text).as_str());
    let raw = chars_of(raw_excerpt);
    expectation_from(lower.as_slice(), raw.as_slice())
}

/// What stands between the first backtick of `text` and the next one.
pub open spec fn form_text(text: Seq<char>) -> Option<Seq<char>> {
    match find(text, "`"@) {
        Some(start) => match find(text.skip(start + 1), "`"@) {
            Some(end) => Some(text.subrange(start + 1, start + 1 + end)),
            None => None,
        },
        None => None,
    }
}

/// Extracts the form that a claim quotes between backticks.
pub fn extract_form_text(text: &str) -> (r: Option<String>)
    ensures
        text_view(r) == form_text(text@),
{
    let chars = chars_of(text);
    let tick = chars_of("`");
    proof {
        lemma_find_from(chars@, "`"@, 0);
    }
    let start = match find_in(chars.as_slice(), tick.as_slice()) {
        Some(start) => start,
        None => {
            return None;
        },
    };
    if start >= chars.len() {
        proof {
            reveal_strlit("`");
        }
        return None;
    }
    let rest = &chars.as_slice()[start + 1..chars.len()];
    proof {
        lemma_find_from(rest@, "`"@, 0);
    }
    match find_in(rest, tick.as_slice()) {
        Some(end) => {
            Some(string_of(&rest[0..end]))
        },
        None => None,
    }
}

/// The option part of an attached form `--name[=ARG]` or `--name=ARG`.
pub open spec fn attached_base(form: Seq<char>) -> Option<Seq<char>> {
    match find(form, "[="@) {
        Some(i) => Some(form.subrange(0, i)),
        None => match find(form, "="@) {
            Some(i) => Some(form.subrange(0, i)),
            None => None,
        },
    }
}

/// An option with the dummy value attached.
pub open spec fn with_value(base: Seq<char>) -> Seq<char> {
    base + "="@ + BINDING_DUMMY_VALUE@
}

/// The arguments that bind the dummy value to an option: attached where the
/// claimed form is attached or the option is long, trailing otherwise.
pub open spec fn with_arg_argv(form: Option<Seq<char>>, option: Seq<char>) -> Seq<Seq<char>> {
    if form is Some && attached_base(form->0) is Some {
        seq![with_value(attached_base(form->0)->0)]
    } else if starts_with(option, "--"@) {
        seq![with_value(option)]
    } else {
        seq![option, BINDING_DUMMY_VALUE@]
    }
}

fn base_of(form: &[char]) -> (r: Option<usize>)
    ensures
        match r {
            Some(i) => i <= form.len() && attached_base(form@) == Some(form@.subrange(0, i as int)),
            None => attached_base(form@) is None,
        },
{
    let bracket = chars_of("[=");
    let equals = chars_of("=");
    proof {
        lemma_find_from(form@, "[="@, 0);
        lemma_find_from(form@, "="@, 0);
    }
    match find_in(form, bracket.as_slice()) {
        Some(i) => Some(i),
        None => find_in(form, equals.as_slice()),
    }
}

fn attach_value(base: &[char]) -> (arg: String)
    ensures
        arg@ == with_value(base@),
{
    let mut buf: Vec<char> = Vec::new();
    push_all(&mut buf, base);
    push_str(&mut buf, "=");
    push_str(&mut buf, BINDING_DUMMY_VALUE);
    string_of(buf.as_slice())
}

/// Builds the arguments that bind the dummy value to an option.
pub fn build_with_arg_args(form: Option<&str>, option: &str) -> (args: Vec<String>)
    ensures
        views(args@) == with_arg_argv(
            match form {
                Some(f) => Some(f@),
                None => None,
            },
            option@,
        ),
{
    let mut args: Vec<String> = Vec::new();
    if let Some(form) = form {
        let chars = chars_of(form);
        if let Some(i) = base_of(chars.as_slice()) {
            let arg = attach_value(&chars.as_slice()[0..i]);
            args.push(arg);
            return args;
        }
    }
    let chars = chars_of(option);
    let dashes = chars_of("--");
    if has_prefix(chars.as_slice(), dashes.as_slice()) {
        let arg = attach_value(chars.as_slice());
        args.push(arg);
    } else {
        args.push(option.to_owned());
        args.push(BINDING_DUMMY_VALUE.to_owned());
    }
    args
}

/// Reads a binding claim: its option, what it expects, the form it quotes.
pub fn binding_spec_from_claim(claim: &Claim) -> (r: Option<BindingSpec>)
    ensures
        match r {
            Some(spec) => {
                &&& claim_option(claim.id@, ":binding"@) == Some(spec.option@)
                &&& spec.expectation == expectation_of(lowercase(claim.text@), claim.raw_excerpt@)
                &&& text_view(spec.form) == form_text(claim.text@)
            },
            None => claim_option(claim.id@, ":binding"@) is None,
        },
{
    match option_from_binding_claim_id(claim.id.as_str()) {
        Some(option) => Some(
            BindingSpec {
                option,
                expectation: parse_binding_expectation(
                    claim.text.as_str(),
                    claim.raw_excerpt.as_str(),
                ),
                form: extract_form_text(claim.text.as_str()),
            },
        ),
        None => None,
    }
}

/// The result of validating a binding claim from the two probes of its
/// option. A claim whose ID names no option is not looked into.
pub open spec fn binding_result(
    claim: Claim,
    env: EnvSnapshot,
    missing: ExecutionAttempt,
    with_arg: ExecutionAttempt,
) -> ResultView {
    match claim_option(claim.id@, ":binding"@) {
        None => ResultView {
            claim_id: claim.id@,
            status: ValidationStatus::Undetermined,
            attempts: seq![],
            observed: None,
            reason: Some("unrecognized parameter binding claim"@),
        },
        Some(option) => {
            let missing_analysis = analysis_of(
                text_view(missing.spawn_error),
                missing.exit_code,
                findings_of(option, missing.stdout@, missing.stderr@),
            );
            let with_arg_analysis = analysis_of(
                text_view(with_arg.spawn_error),
                with_arg.exit_code,
                findings_of(option, with_arg.stdout@, with_arg.stderr@),
            );
            let verdict = match expectation_of(lowercase(claim.text@), claim.raw_excerpt@) {
                Some(expectation) => claim_rules(expectation, missing_analysis, with_arg_analysis),
                None => (
                    ValidationStatus::Undetermined,
                    Some("parameter binding expectation missing"@),
                ),
            };
            ResultView {
                claim_id: claim.id@,
                status: verdict.0,
                attempts: seq![
                    evidence_of(
                        missing,
                        env,
                        Some(probe_notes("missing_arg"@, missing_analysis.notes)),
                    ),
                    evidence_of(
                        with_arg,
                        env,
                        Some(probe_notes("with_arg"@, with_arg_analysis.notes)),
                    ),
                ],
                observed: None,
                reason: verdict.1,
            }
        },
    }
}

/// Classifies a parameter binding claim from its two probes: `missing` is
/// the outcome of `<option> --help`, `with_arg` that of the option with the
/// dummy value bound and `--help` after it.
pub fn validate_option_binding(
    claim: &Claim,
    env: &EnvSnapshot,
    missing: ExecutionAttempt,
    with_arg: ExecutionAttempt,
) -> (result: ValidationResult)
    ensures
        result@ == binding_result(*claim, *env, missing, with_arg),
        result.method == ValidationMethod::AcceptanceTest,
        result.determinism == Some(Determinism::Deterministic),
{
    let spec = match binding_spec_from_claim(claim) {
        Some(spec) => spec,
        None => {
            let attempts: Vec<Evidence> = Vec::new();
            assert(views(attempts@) =~= seq![]);
            return ValidationResult {
                claim_id: claim.id.clone(),
                status: ValidationStatus::Undetermined,
                method: ValidationMethod::AcceptanceTest,
                determinism: Some(Determinism::Deterministic),
                attempts,
                observed: None,
                reason: Some("unrecognized parameter binding claim".to_owned()),
            };
        },
    };
    let missing_analysis = analyze_binding_attempt(spec.option.as_str(), &missing);
    let with_arg_analysis = analyze_binding_attempt(spec.option.as_str(), &with_arg);
    let (status, reason) = match spec.expectation {
        Some(expectation) => classify_binding_attempts(
            expectation,
            &missing_analysis,
            &with_arg_analysis,
        ),
        None => (
            ValidationStatus::Undetermined,
            Some("parameter binding expectation missing".to_owned()),
        ),
    };
    let first = evidence_for_attempt(missing, env, "missing_arg", &missing_analysis);
    let second = evidence_for_attempt(with_arg, env, "with_arg", &with_arg_analysis);
    let mut attempts: Vec<Evidence> = Vec::new();
    attempts.push(first);
    attempts.push(second);
    assert(views(attempts@) =~= seq![first@, second@]);
    ValidationResult {
        claim_id: claim.id.clone(),
        status,
        method: ValidationMethod::AcceptanceTest,
        determinism: Some(Determinism::Deterministic),
        attempts,
        observed: None,
        reason,
    }
}

} // verus!
