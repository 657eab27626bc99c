//! Plan execution, one probe at a time, and the verdicts of each option.
//!
//! The caller runs the probes; this module decides which probe is due, takes
//! its outcome, applies the stop rules and draws the verdicts.

use crate::binding::{binding_rules, BindingVerdict, infer_binding};
use crate::help::{BindingHint, HelpOption, HelpRecord, ValueForm};
use crate::probe::{
    is_probe_evidence, lemma_evidence_of_probe, probe_run, ProbeRun, run_of, RunView,
};
use crate::schema::{
    BindingResult, BindingView, copy_evidence, EnvSnapshot, Evidence, EvidenceView, OptionSurface,
    PlannedOption, ProbePlan, ProbeType, StopRules, SurfaceView, text_view, TierResult, TierView,
    ValidationStatus,
};
use crate::signals::{AnalysisView, ExecutionAttempt};
use crate::text::{lemma_views_push, views};
use crate::validate::{classify_attempt, existence_verdict};
use crate::signals::findings_of;
use vstd::prelude::*;

verus! {

/// The existence probe as it ran, with the verdict drawn from it.
#[derive(Debug, Clone)]
pub struct ExistenceOutcome {
    pub status: ValidationStatus,
    pub reason: Option<String>,
    pub run: ProbeRun,
}

pub ghost struct OutcomeView {
    pub status: ValidationStatus,
    pub reason: Option<Seq<char>>,
    pub run: RunView,
}

impl View for ExistenceOutcome {
    type V = OutcomeView;

    open spec fn view(&self) -> OutcomeView {
        OutcomeView { status: self.status, reason: text_view(self.reason), run: self.run@ }
    }
}

/// How far the probes of one option have come.
#[derive(Debug, Clone)]
pub struct OptionProgress {
    pub existence: Option<ExistenceOutcome>,
    pub invalid_value: Option<ProbeRun>,
    pub option_at_end: Option<ProbeRun>,
    /// The index of the next planned probe.
    pub next: usize,
    /// A stop rule has ended the probing of this option.
    pub stopped: bool,
}

pub ghost struct ProgressView {
    pub existence: Option<OutcomeView>,
    pub invalid_value: Option<RunView>,
    pub option_at_end: Option<RunView>,
    pub next: nat,
    pub stopped: bool,
}

pub open spec fn run_view(run: Option<ProbeRun>) -> Option<RunView> {
    match run {
        Some(r) => Some(r@),
        None => None,
    }
}

impl View for OptionProgress {
    type V = ProgressView;

    open spec fn view(&self) -> ProgressView {
        ProgressView {
            existence: match self.existence {
                Some(o) => Some(o@),
                None => None,
            },
            invalid_value: run_view(self.invalid_value),
            option_at_end: run_view(self.option_at_end),
            next: self.next as nat,
            stopped: self.stopped,
        }
    }
}

/// The progress of an option none of whose probes has run.
pub open spec fn fresh() -> ProgressView {
    ProgressView {
        existence: None,
        invalid_value: None,
        option_at_end: None,
        next: 0,
        stopped: false,
    }
}

/// The progress of an option none of whose probes has run.
pub fn start_option() -> (progress: OptionProgress)
    ensures
        progress@ == fresh(),
{
    OptionProgress {
        existence: None,
        invalid_value: None,
        option_at_end: None,
        next: 0,
        stopped: false,
    }
}

/// The probe that is due: the next planned one, unless a stop rule has
/// ended the option or the plan is through.
pub open spec fn due(probes: Seq<ProbeType>, p: ProgressView) -> Option<ProbeType> {
    if !p.stopped && p.next < probes.len() {
        Some(probes[p.next as int])
    } else {
        None
    }
}

/// Says which probe is due.
pub fn next_probe(planned: &PlannedOption, progress: &OptionProgress) -> (probe: Option<ProbeType>)
    ensures
        probe == due(planned.probes@, progress@),
{
    if !progress.stopped && progress.next < planned.probes.len() {
        Some(planned.probes[progress.next])
    } else {
        None
    }
}

/// The existence probe of `option` with its verdict.
pub open spec fn outcome_of(
    option: Seq<char>,
    form: Option<ValueForm>,
    env: EnvSnapshot,
    attempt: ExecutionAttempt,
) -> OutcomeView {
    let verdict = existence_verdict(
        text_view(attempt.spawn_error),
        attempt.exit_code,
        findings_of(option, attempt.stdout@, attempt.stderr@),
    );
    OutcomeView {
        status: verdict.0,
        reason: verdict.1,
        run: run_of(ProbeType::Existence, option, form, env, attempt),
    }
}

/// The progress with the outcome of one more probe kept; a later run of a
/// kind replaces an earlier one.
pub open spec fn kept(
    p: ProgressView,
    probe: ProbeType,
    option: Seq<char>,
    form: Option<ValueForm>,
    env: EnvSnapshot,
    attempt: ExecutionAttempt,
) -> ProgressView {
    match probe {
        ProbeType::Existence => ProgressView {
            existence: Some(outcome_of(option, form, env, attempt)),
            ..p
        },
        ProbeType::InvalidValue => ProgressView {
            invalid_value: Some(run_of(probe, option, form, env, attempt)),
            ..p
        },
        ProbeType::OptionAtEnd => ProgressView {
            option_at_end: Some(run_of(probe, option, form, env, attempt)),
            ..p
        },
    }
}

pub open spec fn end_analysis(p: ProgressView) -> Option<AnalysisView> {
    match p.option_at_end {
        Some(run) => Some(run.analysis),
        None => None,
    }
}

/// The binding as the probes so far show it, where the existence and the
/// invalid-value probe have run.
pub open spec fn binding_so_far(p: ProgressView, form: Option<ValueForm>) -> BindingVerdict
    recommends
        p.existence is Some,
        p.invalid_value is Some,
{
    binding_rules(
        p.existence->0.run.analysis,
        p.invalid_value->0.analysis,
        end_analysis(p),
        form,
    )
}

/// Whether a stop rule ends the option: existence was refuted, or it was
/// confirmed and the probes so far confirm a binding with its kind.
pub open spec fn stops(p: ProgressView, rules: StopRules, form: Option<ValueForm>) -> bool {
    ||| rules.stop_on_unrecognized && p.existence is Some && p.existence->0.status
        == ValidationStatus::Refuted
    ||| {
        &&& rules.stop_on_binding_confirmed
        &&& p.existence is Some
        &&& p.invalid_value is Some
        &&& p.existence->0.status == ValidationStatus::Confirmed
        &&& binding_so_far(p, form).status == ValidationStatus::Confirmed
        &&& binding_so_far(p, form).kind is Some
    }
}

/// The progress after the probe that was due has run with outcome
/// `attempt`. Where no probe was due, nothing changes.
pub open spec fn recorded(
    probes: Seq<ProbeType>,
    p: ProgressView,
    option: Seq<char>,
    env: EnvSnapshot,
    attempt: ExecutionAttempt,
    rules: StopRules,
    form: Option<ValueForm>,
) -> ProgressView {
    match due(probes, p) {
        Some(probe) => {
            let q = kept(p, probe, option, form, env, attempt);
            ProgressView { next: p.next + 1, stopped: stops(q, rules, form), ..q }
        },
        None => p,
    }
}

fn should_stop(progress: &OptionProgress, rules: StopRules, form_hint: Option<ValueForm>) -> (b:
    bool)
    ensures
        b == stops(progress@, rules, form_hint),
{
    if rules.stop_on_unrecognized {
        if let Some(outcome) = &progress.existence {
            if outcome.status == ValidationStatus::Refuted {
                return true;
            }
        }
    }
    if rules.stop_on_binding_confirmed {
        if let Some(outcome) = &progress.existence {
            if let Some(invalid) = &progress.invalid_value {
                if outcome.status == ValidationStatus::Confirmed {
                    let end = match &progress.option_at_end {
                        Some(run) => Some(&run.analysis),
                        None => None,
                    };
                    let verdict = infer_binding(
                        &outcome.run.analysis,
                        &invalid.analysis,
                        end,
                        form_hint,
                    );
                    return verdict.0 == ValidationStatus::Confirmed && verdict.1.is_some();
                }
            }
        }
    }
    false
}

/// Takes the outcome of the probe that was due.
pub fn record_probe(
    planned: &PlannedOption,
    progress: OptionProgress,
    attempt: ExecutionAttempt,
    env: &EnvSnapshot,
    rules: StopRules,
    form_hint: Option<ValueForm>,
) -> (after: OptionProgress)
    ensures
        after@ == recorded(
            planned.probes@,
            progress@,
            planned.option@,
            *env,
            attempt,
            rules,
            form_hint,
        ),
{
    let probe = match next_probe(planned, &progress) {
        Some(probe) => probe,
        None => {
            return progress;
        },
    };
    let option = planned.option.as_str();
    assert(progress.next < planned.probes.len());
    let next: usize = progress.next + 1;
    let mut after = progress;
    match probe {
        ProbeType::Existence => {
            let (status, reason) = classify_attempt(option, &attempt);
            let run = probe_run(probe, option, form_hint, attempt, env);
            after.existence = Some(ExistenceOutcome { status, reason, run });
        },
        ProbeType::InvalidValue => {
            after.invalid_value = Some(probe_run(probe, option, form_hint, attempt, env));
        },
        ProbeType::OptionAtEnd => {
            after.option_at_end = Some(probe_run(probe, option, form_hint, attempt, env));
        },
    }
    after.next = next;
    after.stopped = should_stop(&after, rules, form_hint);
    after
}

pub open spec fn one_or_none(run: Option<RunView>) -> Seq<EvidenceView> {
    match run {
        Some(r) => seq![r.evidence],
        None => seq![],
    }
}

/// The existence verdict of an option: that of its existence probe.
pub open spec fn existence_of(p: ProgressView) -> TierView {
    match p.existence {
        Some(outcome) => TierView {
            status: outcome.status,
            reason: outcome.reason,
            evidence: seq![outcome.run.evidence],
        },
        None => TierView {
            status: ValidationStatus::Undetermined,
            reason: Some("existence probe not run"@),
            evidence: seq![],
        },
    }
}

/// The evidence behind the binding of an option: that of the existence probe, of the
/// invalid-value probe and of the option-at-end probe, as far as they ran.
pub open spec fn binding_evidence(p: ProgressView) -> Seq<EvidenceView> {
    existence_of(p).evidence + one_or_none(p.invalid_value) + one_or_none(p.option_at_end)
}

/// The binding verdict of an option: undetermined unless its existence is
/// confirmed, and then what the binding rules say of its probes.
pub open spec fn binding_of(p: ProgressView, form: Option<ValueForm>) -> BindingView {
    if existence_of(p).status != ValidationStatus::Confirmed {
        BindingView {
            status: ValidationStatus::Undetermined,
            kind: None,
            reason: Some("option existence not confirmed"@),
            evidence: binding_evidence(p),
        }
    } else if p.invalid_value is Some {
        let verdict = binding_so_far(p, form);
        BindingView {
            status: verdict.status,
            kind: verdict.kind,
            reason: Some(verdict.reason),
            evidence: binding_evidence(p),
        }
    } else {
        BindingView {
            status: ValidationStatus::Undetermined,
            kind: None,
            reason: Some("invalid-value probe not run"@),
            evidence: binding_evidence(p),
        }
    }
}

/// The two verdicts of an option as its probes show them.
pub open spec fn surface_of(option: Seq<char>, p: ProgressView, form: Option<ValueForm>) -> SurfaceView {
    SurfaceView { option, existence: existence_of(p), binding: binding_of(p, form) }
}

/// Draws the two verdicts of an option from the probes that ran.
pub fn finish_option(option: &str, progress: OptionProgress, form_hint: Option<ValueForm>) -> (surface:
    OptionSurface)
    ensures
        surface@ == surface_of(option@, progress@, form_hint),
{
    let mut binding_items: Vec<Evidence> = Vec::new();
    let mut existence_items: Vec<Evidence> = Vec::new();
    assert(views(binding_items@) =~= seq![]);
    let mut exist_status = ValidationStatus::Undetermined;
    let mut exist_reason: Option<String> = Some("existence probe not run".to_owned());
    let (binding_status, binding_kind, binding_reason) = match (
        &progress.existence,
        &progress.invalid_value,
    ) {
        (Some(outcome), Some(invalid)) if outcome.status == ValidationStatus::Confirmed => {
            let end = match &progress.option_at_end {
                Some(run) => Some(&run.analysis),
                None => None,
            };
            infer_binding(&outcome.run.analysis, &invalid.analysis, end, form_hint)
        },
        (Some(outcome), None) if outcome.status == ValidationStatus::Confirmed => (
            ValidationStatus::Undetermined,
            None,
            Some("invalid-value probe not run".to_owned()),
        ),
        _ => (
            ValidationStatus::Undetermined,
            None,
            Some("option existence not confirmed".to_owned()),
        ),
    };
    if let Some(outcome) = progress.existence {
        let copy = copy_evidence(&outcome.run.evidence);
        proof {
            lemma_views_push(existence_items@, outcome.run.evidence);
        }
        binding_items.push(copy);
        existence_items.push(outcome.run.evidence);
        exist_status = outcome.status;
        exist_reason = outcome.reason;
    }
    if let Some(run) = progress.invalid_value {
        binding_items.push(run.evidence);
    }
    if let Some(run) = progress.option_at_end {
        binding_items.push(run.evidence);
    }
    assert(views(binding_items@) =~= binding_evidence(progress@));
    OptionSurface {
        option: option.to_owned(),
        existence: TierResult {
            status: exist_status,
            reason: exist_reason,
            evidence: existence_items,
        },
        binding: BindingResult {
            status: binding_status,
            kind: binding_kind,
            reason: binding_reason,
            evidence: binding_items,
        },
    }
}

/// The hint of the last of the first `n` records that holds `name`.
pub open spec fn hint_upto(records: Seq<HelpRecord>, name: Seq<char>, n: int) -> Option<BindingHint>
    decreases n,
{
    if n <= 0 {
        None
    } else if records[n - 1].option == name {
        records[n - 1].binding
    } else {
        hint_upto(records, name, n - 1)
    }
}

/// The hint that the help text gives for `name`.
pub open spec fn hint_for(records: Seq<HelpRecord>, name: Seq<char>) -> Option<BindingHint> {
    hint_upto(records, name, records.len() as int)
}

/// Looks up the hint that the help text gives for an option.
pub fn find_hint(help_options: &Vec<HelpOption>, option: &str) -> (hint: Option<BindingHint>)
    ensures
        hint == hint_for(views(help_options@), option@),
{
    let name = option.to_owned();
    let mut n: usize = help_options.len();
    while n > 0
        invariant
            n <= help_options.len(),
            name@ == option@,
            hint_upto(views(help_options@), option@, n as int) == hint_for(
                views(help_options@),
                option@,
            ),
        decreases n,
    {
        if help_options[n - 1].option == name {
            return help_options[n - 1].binding;
        }
        n = n - 1;
    }
    None
}

/// An option whose existence is not confirmed has an undetermined binding
/// without a kind.
pub proof fn lemma_unconfirmed_existence(option: Seq<char>, p: ProgressView, form: Option<ValueForm>)
    requires
        surface_of(option, p, form).existence.status != ValidationStatus::Confirmed,
    ensures
        surface_of(option, p, form).binding.status == ValidationStatus::Undetermined,
        surface_of(option, p, form).binding.kind is None,
        surface_of(option, p, form).binding.reason == Some("option existence not confirmed"@),
{
}

/// A binding names its kind exactly when it is confirmed.
pub proof fn lemma_kind_when_confirmed(option: Seq<char>, p: ProgressView, form: Option<ValueForm>)
    ensures
        surface_of(option, p, form).binding.kind is Some <==> surface_of(
            option,
            p,
            form,
        ).binding.status == ValidationStatus::Confirmed,
{
}

/// The progress of an option after `n` outcomes were recorded, the first
/// `n` of `attempts` in their order.
pub open spec fn progress_after(
    probes: Seq<ProbeType>,
    option: Seq<char>,
    env: EnvSnapshot,
    attempts: Seq<ExecutionAttempt>,
    rules: StopRules,
    form: Option<ValueForm>,
    n: int,
) -> ProgressView
    decreases n,
{
    if n <= 0 {
        fresh()
    } else {
        recorded(
            probes,
            progress_after(probes, option, env, attempts, rules, form, n - 1),
            option,
            env,
            attempts[n - 1],
            rules,
            form,
        )
    }
}

/// Every item of a list of evidence is that of a probe of `option`.
pub open spec fn all_of_probes(evidence: Seq<EvidenceView>, option: Seq<char>) -> bool {
    forall|k: int| 0 <= k < evidence.len() ==> is_probe_evidence(#[trigger] evidence[k], option)
}

/// Every run that the progress holds is that of a probe of `option`.
pub open spec fn holds_probes(p: ProgressView, option: Seq<char>) -> bool {
    &&& p.existence is Some ==> is_probe_evidence(p.existence->0.run.evidence, option)
    &&& p.invalid_value is Some ==> is_probe_evidence(p.invalid_value->0.evidence, option)
    &&& p.option_at_end is Some ==> is_probe_evidence(p.option_at_end->0.evidence, option)
}

proof fn lemma_recorded_holds_probes(
    probes: Seq<ProbeType>,
    p: ProgressView,
    option: Seq<char>,
    env: EnvSnapshot,
    attempt: ExecutionAttempt,
    rules: StopRules,
    form: Option<ValueForm>,
)
    requires
        holds_probes(p, option),
    ensures
        holds_probes(recorded(probes, p, option, env, attempt, rules, form), option),
{
    lemma_evidence_of_probe(ProbeType::Existence, option, form, env, attempt);
    lemma_evidence_of_probe(ProbeType::InvalidValue, option, form, env, attempt);
}

/// Where the probes of an option begin with the existence probe and at
/// least one outcome was recorded, the existence of the option rests on
/// exactly one probe, and its binding on at most one probe of each kind:
/// the existence probe, then the invalid-value probe and the option-at-end
/// probe where they ran. All of this evidence holds arguments that name
/// the option, and hashes in place of what the probes printed.
pub proof fn lemma_run_evidence(
    probes: Seq<ProbeType>,
    option: Seq<char>,
    env: EnvSnapshot,
    attempts: Seq<ExecutionAttempt>,
    rules: StopRules,
    form: Option<ValueForm>,
    n: int,
)
    requires
        probes.len() > 0,
        probes[0] == ProbeType::Existence,
        n >= 1,
    ensures
        ({
            let p = progress_after(probes, option, env, attempts, rules, form, n);
            let surface = surface_of(option, p, form);
            &&& p.existence is Some
            &&& 1 <= p.next <= n
            &&& p.next <= probes.len()
            &&& holds_probes(p, option)
            &&& surface.existence.evidence.len() == 1
            &&& surface.binding.evidence == seq![p.existence->0.run.evidence] + one_or_none(
                p.invalid_value,
            ) + one_or_none(p.option_at_end)
            &&& 1 <= surface.binding.evidence.len() <= 3
            &&& all_of_probes(surface.existence.evidence, option)
            &&& all_of_probes(surface.binding.evidence, option)
        }),
    decreases n,
{
    let before = progress_after(probes, option, env, attempts, rules, form, n - 1);
    if n > 1 {
        lemma_run_evidence(probes, option, env, attempts, rules, form, n - 1);
    }
    lemma_recorded_holds_probes(probes, before, option, env, attempts[n - 1], rules, form);
    let p = progress_after(probes, option, env, attempts, rules, form, n);
    assert(surface_of(option, p, form).binding.evidence =~= seq![p.existence->0.run.evidence]
        + one_or_none(p.invalid_value) + one_or_none(p.option_at_end));
}

/// Runs the probes of one option over outcomes that are already at hand,
/// taking them in order for as long as a probe is due.
pub fn replay_option(
    planned: &PlannedOption,
    attempts: Vec<ExecutionAttempt>,
    env: &EnvSnapshot,
    rules: StopRules,
    form_hint: Option<ValueForm>,
) -> (surface: OptionSurface)
    ensures
        surface@ == surface_of(
            planned.option@,
            progress_after(
                planned.probes@,
                planned.option@,
                *env,
                attempts@,
                rules,
                form_hint,
                attempts.len() as int,
            ),
            form_hint,
        ),
{
    let mut progress = start_option();
    let ghost all = attempts@;
    for attempt in it: attempts
        invariant
            it.seq() == all,
            progress@ == progress_after(
                planned.probes@,
                planned.option@,
                *env,
                all,
                rules,
                form_hint,
                it.index() as int,
            ),
    {
        progress = record_probe(planned, progress, attempt, env, rules, form_hint);
    }
    finish_option(planned.option.as_str(), progress, form_hint)
}

/// The form of a hint, where there is one.
pub open spec fn form_of(hint: Option<BindingHint>) -> Option<ValueForm> {
    match hint {
        Some(h) => Some(h.form),
        None => None,
    }
}

/// The outcomes at hand for the planned option `k`: none where the list is
/// too short.
pub open spec fn outcomes_for(outcomes: Seq<Vec<ExecutionAttempt>>, k: int) -> Seq<ExecutionAttempt> {
    if 0 <= k < outcomes.len() {
        outcomes[k]@
    } else {
        Seq::<ExecutionAttempt>::empty()
    }
}

/// The surface of the planned option `k`: its probes run in their order
/// over the outcomes at hand for it, under the stop rules of the plan and
/// with the form that the help text hints at.
pub open spec fn planned_surface(
    plan: ProbePlan,
    help: Seq<HelpRecord>,
    env: EnvSnapshot,
    outcomes: Seq<Vec<ExecutionAttempt>>,
    k: int,
) -> SurfaceView {
    let planned = plan.options@[k];
    let form = form_of(hint_for(help, planned.option@));
    let attempts = outcomes_for(outcomes, k);
    surface_of(
        planned.option@,
        progress_after(
            planned.probes@,
            planned.option@,
            env,
            attempts,
            plan.stop_rules,
            form,
            attempts.len() as int,
        ),
        form,
    )
}

/// The surfaces of the first `n` planned options, in plan order.
pub open spec fn plan_surfaces(
    plan: ProbePlan,
    help: Seq<HelpRecord>,
    env: EnvSnapshot,
    outcomes: Seq<Vec<ExecutionAttempt>>,
    n: int,
) -> Seq<SurfaceView>
    decreases n,
{
    if n <= 0 {
        seq![]
    } else {
        plan_surfaces(plan, help, env, outcomes, n - 1).push(
            planned_surface(plan, help, env, outcomes, n - 1),
        )
    }
}

/// Runs a plan over outcomes that are already at hand, one list for each
/// planned option: the options in plan order, the probes of each in their
/// order for as long as a probe is due.
pub fn execute_plan(
    plan: &ProbePlan,
    help_options: &Vec<HelpOption>,
    env: &EnvSnapshot,
    outcomes: Vec<Vec<ExecutionAttempt>>,
) -> (surfaces: Vec<OptionSurface>)
    ensures
        surfaces.len() == plan.options.len(),
        views(surfaces@) == plan_surfaces(
            *plan,
            views(help_options@),
            *env,
            outcomes@,
            plan.options.len() as int,
        ),
{
    let mut surfaces: Vec<OptionSurface> = Vec::new();
    let ghost all = outcomes@;
    let mut k: usize = 0;
    for attempts in it: outcomes
        invariant
            it.seq() == all,
            k <= it.index() <= all.len(),
            k <= plan.options.len(),
            k < plan.options.len() ==> k == it.index(),
            surfaces.len() == k,
            views(surfaces@) == plan_surfaces(*plan, views(help_options@), *env, all, k as int),
    {
        if k < plan.options.len() {
            let planned = &plan.options[k];
            let form_hint = match find_hint(help_options, planned.option.as_str()) {
                Some(hint) => Some(hint.form),
                None => None,
            };
            let surface = replay_option(planned, attempts, env, plan.stop_rules, form_hint);
            surfaces.push(surface);
            k = k + 1;
        }
    }
    while k < plan.options.len()
        invariant
            k <= plan.options.len(),
            k < plan.options.len() ==> all.len() <= k,
            surfaces.len() == k,
            views(surfaces@) == plan_surfaces(*plan, views(help_options@), *env, all, k as int),
        decreases plan.options.len() - k,
    {
        let planned = &plan.options[k];
        let form_hint = match find_hint(help_options, planned.option.as_str()) {
            Some(hint) => Some(hint.form),
            None => None,
        };
        let none: Vec<ExecutionAttempt> = Vec::new();
        let surface = replay_option(planned, none, env, plan.stop_rules, form_hint);
        surfaces.push(surface);
        k = k + 1;
    }
    surfaces
}

/// The report holds the planned options in plan order, each under its own
/// token.
pub proof fn lemma_plan_order(
    plan: ProbePlan,
    help: Seq<HelpRecord>,
    env: EnvSnapshot,
    outcomes: Seq<Vec<ExecutionAttempt>>,
    n: int,
)
    requires
        0 <= n <= plan.options.len(),
    ensures
        plan_surfaces(plan, help, env, outcomes, n).len() == n,
        forall|k: int|
            0 <= k < n ==> (#[trigger] plan_surfaces(plan, help, env, outcomes, n)[k]).option
                == plan.options@[k].option@,
    decreases n,
{
    if n > 0 {
        lemma_plan_order(plan, help, env, outcomes, n - 1);
    }
}

} // verus!
