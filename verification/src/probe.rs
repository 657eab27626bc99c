//! Probes: the arguments of each kind of probe and the record of its run.

use crate::help::ValueForm;
use crate::schema::{EnvSnapshot, Evidence, EvidenceView, ProbeType, text_view};
use crate::signals::{analysis_of, AnalysisView, AttemptAnalysis, ExecutionAttempt, findings_of};
use crate::text::{chars_of, has_prefix, push_str, starts_with, string_of, views};
use crate::validate::{
    analyze_binding_attempt, BINDING_DUMMY_VALUE, evidence_for_attempt, evidence_of, probe_notes,
    with_value,
};
use crate::digest::tagged_hash;
use vstd::prelude::*;

verus! {

/// Whether the dummy value is attached to the option: as the hint says, and
/// without a hint for long options only.
pub open spec fn binds_attached(option: Seq<char>, form: Option<ValueForm>) -> bool {
    match form {
        Some(ValueForm::Attached) => true,
        Some(ValueForm::Trailing) => false,
        None => starts_with(option, "--"@),
    }
}

/// The arguments of a probe of `option`.
pub open spec fn probe_argv(probe: ProbeType, option: Seq<char>, form: Option<ValueForm>) -> Seq<
    Seq<char>,
> {
    match probe {
        ProbeType::Existence => seq![option, "--help"@],
        ProbeType::InvalidValue => if binds_attached(option, form) {
            seq![with_value(option), "--help"@]
        } else {
            seq![option, BINDING_DUMMY_VALUE@, "--help"@]
        },
        ProbeType::OptionAtEnd => seq![option],
    }
}

/// The first argument of every probe is the option token, alone or with
/// the dummy value attached.
pub proof fn lemma_argv_names_option(probe: ProbeType, option: Seq<char>, form: Option<ValueForm>)
    ensures
        probe_argv(probe, option, form).len() >= 1,
        probe_argv(probe, option, form)[0] == option || probe_argv(probe, option, form)[0]
            == with_value(option),
        starts_with(probe_argv(probe, option, form)[0], option),
{
    assert(with_value(option).subrange(0, option.len() as int) =~= option);
    assert(option.subrange(0, option.len() as int) =~= option);
}

/// Builds the arguments of a probe of `option`.
pub fn probe_args(probe: ProbeType, option: &str, form_hint: Option<ValueForm>) -> (args: Vec<
    String,
>)
    ensures
        views(args@) == probe_argv(probe, option@, form_hint),
{
    let mut args: Vec<String> = Vec::new();
    match probe {
        ProbeType::Existence => {
            args.push(option.to_owned());
            args.push("--help".to_owned());
        },
        ProbeType::InvalidValue => {
            let chars = chars_of(option);
            let attached = match form_hint {
                Some(ValueForm::Attached) => true,
                Some(ValueForm::Trailing) => false,
                None => {
                    let dashes = chars_of("--");
                    has_prefix(chars.as_slice(), dashes.as_slice())
                },
            };
            if attached {
                let mut buf = chars;
                push_str(&mut buf, "=");
                push_str(&mut buf, BINDING_DUMMY_VALUE);
                args.push(string_of(buf.as_slice()));
            } else {
                args.push(option.to_owned());
                args.push(BINDING_DUMMY_VALUE.to_owned());
            }
            args.push("--help".to_owned());
        },
        ProbeType::OptionAtEnd => {
            args.push(option.to_owned());
        },
    }
    args
}

/// The name of a probe kind in plans and notes.
pub open spec fn probe_name(probe: ProbeType) -> Seq<char> {
    match probe {
        ProbeType::Existence => "existence"@,
        ProbeType::InvalidValue => "invalid_value"@,
        ProbeType::OptionAtEnd => "option_at_end"@,
    }
}

/// The name of a probe kind in plans and notes.
pub fn probe_label(probe: ProbeType) -> (label: &'static str)
    ensures
        label@ == probe_name(probe),
{
    match probe {
        ProbeType::Existence => "existence",
        ProbeType::InvalidValue => "invalid_value",
        ProbeType::OptionAtEnd => "option_at_end",
    }
}

/// One probe as it ran: the signals read off it and its evidence.
#[derive(Debug, Clone)]
pub struct ProbeRun {
    pub analysis: AttemptAnalysis,
    pub evidence: Evidence,
}

pub ghost struct RunView {
    pub analysis: AnalysisView,
    pub evidence: EvidenceView,
}

impl View for ProbeRun {
    type V = RunView;

    open spec fn view(&self) -> RunView {
        RunView { analysis: self.analysis@, evidence: self.evidence@ }
    }
}

/// The analysis of a probe of `option` whose outcome is `attempt`.
pub open spec fn attempt_analysis(option: Seq<char>, attempt: ExecutionAttempt) -> AnalysisView {
    analysis_of(
        text_view(attempt.spawn_error),
        attempt.exit_code,
        findings_of(option, attempt.stdout@, attempt.stderr@),
    )
}

/// The record of a probe of `option` whose outcome is `attempt`: the
/// signals read off it, and evidence that holds the arguments of the probe
/// whatever the attempt says of them.
pub open spec fn run_of(
    probe: ProbeType,
    option: Seq<char>,
    form: Option<ValueForm>,
    env: EnvSnapshot,
    attempt: ExecutionAttempt,
) -> RunView {
    let analysis = attempt_analysis(option, attempt);
    let evidence = evidence_of(
        attempt,
        env,
        Some(probe_notes(probe_name(probe), analysis.notes)),
    );
    RunView {
        analysis,
        evidence: EvidenceView { args: probe_argv(probe, option, form), ..evidence },
    }
}

/// Records the outcome of a probe of `option`.
pub fn probe_run(
    probe: ProbeType,
    option: &str,
    form_hint: Option<ValueForm>,
    attempt: ExecutionAttempt,
    env: &EnvSnapshot,
) -> (run: ProbeRun)
    ensures
        run@ == run_of(probe, option@, form_hint, *env, attempt),
{
    let analysis = analyze_binding_attempt(option, &attempt);
    let ran = ExecutionAttempt {
        args: probe_args(probe, option, form_hint),
        exit_code: attempt.exit_code,
        stdout: attempt.stdout,
        stderr: attempt.stderr,
        spawn_error: attempt.spawn_error,
    };
    let evidence = evidence_for_attempt(ran, env, probe_label(probe), &analysis);
    ProbeRun { analysis, evidence }
}

/// The evidence of a probe of `option`: its first argument is the option
/// token, alone or with the dummy value attached, and what the probe
/// printed is kept as tagged hashes only.
pub open spec fn is_probe_evidence(evidence: EvidenceView, option: Seq<char>) -> bool {
    &&& evidence.args.len() >= 1
    &&& starts_with(evidence.args[0], option)
    &&& exists|bytes: Seq<u8>| evidence.stdout == Some(#[trigger] tagged_hash(bytes))
    &&& exists|bytes: Seq<u8>| evidence.stderr == Some(#[trigger] tagged_hash(bytes))
}

/// Every record of a probe holds the arguments of the probe, which name
/// the option, and hashes in place of the captured bytes.
pub proof fn lemma_evidence_of_probe(
    probe: ProbeType,
    option: Seq<char>,
    form: Option<ValueForm>,
    env: EnvSnapshot,
    attempt: ExecutionAttempt,
)
    ensures
        run_of(probe, option, form, env, attempt).evidence.args == probe_argv(probe, option, form),
        run_of(probe, option, form, env, attempt).evidence.stdout == Some(
            tagged_hash(attempt.stdout@),
        ),
        run_of(probe, option, form, env, attempt).evidence.stderr == Some(
            tagged_hash(attempt.stderr@),
        ),
        is_probe_evidence(run_of(probe, option, form, env, attempt).evidence, option),
{
    lemma_argv_names_option(probe, option, form);
}

} // verus!
