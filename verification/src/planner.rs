//! The planner client: the request, the probe library, and the rules that a
//! plan has to meet before it is run.

use crate::schema::{PlannedOption, ProbeBudget, ProbePlan, ProbeType, SelfReport, StopRules};
use crate::text::{
    chars_of, debug_list, debug_listing, decimal, join2, lossy_text, push_decimal, push_str,
    string_of, trim, trimmed, utf8_lossy, views,
};
use vstd::prelude::*;

verus! {

/// The version of the probe library.
pub const PROBE_LIBRARY_VERSION: &'static str = "v1";

/// What the planner is asked.
#[derive(Debug, Clone)]
pub struct PlannerRequest {
    pub self_report: SelfReport,
    pub options: Vec<String>,
    pub probe_library: ProbeLibrary,
    pub budget: ProbeBudget,
    pub stop_rules: StopRules,
}

/// The probes that a planner may schedule.
#[derive(Debug, Clone)]
pub struct ProbeLibrary {
    pub version: String,
    pub probes: Vec<ProbeDefinition>,
}

/// One probe kind with what it does.
#[derive(Debug, Clone)]
pub struct ProbeDefinition {
    pub probe: ProbeType,
    pub description: String,
}

/// A plan that passed validation, with the text it was read from.
#[derive(Debug, Clone)]
pub struct PlannerOutput {
    pub plan: ProbePlan,
    pub raw_json: String,
}

impl View for ProbeDefinition {
    type V = (ProbeType, Seq<char>);

    open spec fn view(&self) -> (ProbeType, Seq<char>) {
        (self.probe, self.description@)
    }
}

/// The probe kinds with what each of them does.
pub open spec fn library_probes() -> Seq<(ProbeType, Seq<char>)> {
    seq![
        (
            ProbeType::Existence,
            "Run <opt> --help and detect unrecognized or ambiguous responses."@,
        ),
        (
            ProbeType::InvalidValue,
            "Run <opt> with a dummy value and --help to detect argument binding."@,
        ),
        (
            ProbeType::OptionAtEnd,
            "Run <opt> at end (no --help) to detect missing-arg responses."@,
        ),
    ]
}

/// The probe library that every request carries.
pub fn probe_library() -> (library: ProbeLibrary)
    ensures
        library.version@ == PROBE_LIBRARY_VERSION@,
        views(library.probes@) == library_probes(),
{
    let mut probes: Vec<ProbeDefinition> = Vec::new();
    probes.push(
        ProbeDefinition {
            probe: ProbeType::Existence,
            description: "Run <opt> --help and detect unrecognized or ambiguous responses.".to_owned(),
        },
    );
    probes.push(
        ProbeDefinition {
            probe: ProbeType::InvalidValue,
            description: "Run <opt> with a dummy value and --help to detect argument binding.".to_owned(),
        },
    );
    probes.push(
        ProbeDefinition {
            probe: ProbeType::OptionAtEnd,
            description: "Run <opt> at end (no --help) to detect missing-arg responses.".to_owned(),
        },
    );
    ProbeLibrary { version: PROBE_LIBRARY_VERSION.to_owned(), probes }
}

/// Why a plan is not accepted.
#[derive(Debug, Clone)]
pub enum PlanError {
    MissingVersion,
    BudgetMismatch,
    StopRulesMismatch,
    UnknownOption(String),
    DuplicateOption(String),
    EmptyProbes(String),
    ExistenceNotFirst(String),
    PerOptionBudgetExceeded(String),
    TotalBudgetExceeded,
    MissingOptions(Vec<String>),
}

pub ghost enum PlanFault {
    MissingVersion,
    BudgetMismatch,
    StopRulesMismatch,
    UnknownOption(Seq<char>),
    DuplicateOption(Seq<char>),
    EmptyProbes(Seq<char>),
    ExistenceNotFirst(Seq<char>),
    PerOptionBudgetExceeded(Seq<char>),
    TotalBudgetExceeded,
    MissingOptions(Seq<Seq<char>>),
}

impl View for PlanError {
    type V = PlanFault;

    open spec fn view(&self) -> PlanFault {
        match self {
            PlanError::MissingVersion => PlanFault::MissingVersion,
            PlanError::BudgetMismatch => PlanFault::BudgetMismatch,
            PlanError::StopRulesMismatch => PlanFault::StopRulesMismatch,
            PlanError::UnknownOption(o) => PlanFault::UnknownOption(o@),
            PlanError::DuplicateOption(o) => PlanFault::DuplicateOption(o@),
            PlanError::EmptyProbes(o) => PlanFault::EmptyProbes(o@),
            PlanError::ExistenceNotFirst(o) => PlanFault::ExistenceNotFirst(o@),
            PlanError::PerOptionBudgetExceeded(o) => PlanFault::PerOptionBudgetExceeded(o@),
            PlanError::TotalBudgetExceeded => PlanFault::TotalBudgetExceeded,
            PlanError::MissingOptions(missing) => PlanFault::MissingOptions(views(missing@)),
        }
    }
}

impl View for PlannedOption {
    type V = (Seq<char>, Seq<ProbeType>);

    open spec fn view(&self) -> (Seq<char>, Seq<ProbeType>) {
        (self.option@, self.probes@)
    }
}

/// A plan as validation reads it: the planned options with their probes,
/// the budget and the stop rules.
pub ghost struct PlanView {
    pub planner_version: Seq<char>,
    pub options: Seq<(Seq<char>, Seq<ProbeType>)>,
    pub budget: ProbeBudget,
    pub stop_rules: StopRules,
}

impl View for ProbePlan {
    type V = PlanView;

    open spec fn view(&self) -> PlanView {
        PlanView {
            planner_version: self.planner_version@,
            options: views(self.options@),
            budget: self.budget,
            stop_rules: self.stop_rules,
        }
    }
}

/// Some entry before `i` plans the option that entry `i` plans.
pub open spec fn planned_before(plan: PlanView, i: int) -> bool {
    exists|j: int| 0 <= j < i && (#[trigger] plan.options[j]).0 == plan.options[i].0
}

/// The first rule that entry `i` of the plan breaks.
pub open spec fn entry_fault(plan: PlanView, candidates: Seq<Seq<char>>, i: int) -> Option<PlanFault> {
    let option = plan.options[i].0;
    let probes = plan.options[i].1;
    if !candidates.contains(option) {
        Some(PlanFault::UnknownOption(option))
    } else if planned_before(plan, i) {
        Some(PlanFault::DuplicateOption(option))
    } else if probes.len() == 0 {
        Some(PlanFault::EmptyProbes(option))
    } else if probes[0] != ProbeType::Existence {
        Some(PlanFault::ExistenceNotFirst(option))
    } else if probes.len() > plan.budget.max_per_option {
        Some(PlanFault::PerOptionBudgetExceeded(option))
    } else {
        None
    }
}

/// The fault of the first faulty entry from `i` on.
pub open spec fn entries_fault(plan: PlanView, candidates: Seq<Seq<char>>, i: int) -> Option<PlanFault>
    decreases plan.options.len() - i,
{
    if 0 <= i < plan.options.len() {
        match entry_fault(plan, candidates, i) {
            Some(fault) => Some(fault),
            None => entries_fault(plan, candidates, i + 1),
        }
    } else {
        None
    }
}

/// The number of probes in the first `n` entries.
pub open spec fn probes_upto(plan: PlanView, n: int) -> int
    decreases n,
{
    if n <= 0 {
        0
    } else {
        probes_upto(plan, n - 1) + plan.options[n - 1].1.len()
    }
}

/// The number of probes in the plan.
pub open spec fn total_probes(plan: PlanView) -> int {
    probes_upto(plan, plan.options.len() as int)
}

/// Some entry of the plan plans `option`.
pub open spec fn is_planned(plan: PlanView, option: Seq<char>) -> bool {
    exists|j: int| 0 <= j < plan.options.len() && (#[trigger] plan.options[j]).0 == option
}

/// The candidates among the first `n` that the plan leaves out, each once,
/// in the order of the request.
pub open spec fn uncovered_upto(plan: PlanView, candidates: Seq<Seq<char>>, n: int) -> Seq<Seq<char>>
    decreases n,
{
    if n <= 0 {
        seq![]
    } else {
        let rest = uncovered_upto(plan, candidates, n - 1);
        if is_planned(plan, candidates[n - 1]) || rest.contains(candidates[n - 1]) {
            rest
        } else {
            rest.push(candidates[n - 1])
        }
    }
}

/// The candidates that the plan leaves out, each once, in the order of the request.
pub open spec fn uncovered(plan: PlanView, candidates: Seq<Seq<char>>) -> Seq<Seq<char>> {
    uncovered_upto(plan, candidates, candidates.len() as int)
}

/// The first rule that the plan breaks against its request: budget and stop
/// rules echo the request; each entry plans a candidate, once, with probes
/// that begin with the existence probe and stay within the per-option
/// budget; the probes stay within the total budget; every candidate is
/// planned.
pub open spec fn plan_fault(
    plan: PlanView,
    candidates: Seq<Seq<char>>,
    budget: ProbeBudget,
    stop_rules: StopRules,
) -> Option<PlanFault> {
    if plan.budget != budget {
        Some(PlanFault::BudgetMismatch)
    } else if plan.stop_rules != stop_rules {
        Some(PlanFault::StopRulesMismatch)
    } else if entries_fault(plan, candidates, 0) is Some {
        entries_fault(plan, candidates, 0)
    } else if total_probes(plan) > plan.budget.max_total {
        Some(PlanFault::TotalBudgetExceeded)
    } else if uncovered(plan, candidates).len() > 0 {
        Some(PlanFault::MissingOptions(uncovered(plan, candidates)))
    } else {
        None
    }
}

fn lists(names: &Vec<String>, name: &String) -> (b: bool)
    ensures
        b == views(names@).contains(name@),
{
    let mut i: usize = 0;
    while i < names.len()
        invariant
            i <= names.len(),
            forall|j: int| 0 <= j < i ==> views(names@)[j] != name@,
        decreases names.len() - i,
    {
        assert(views(names@)[i as int] == names@[i as int]@);
        if names[i] == *name {
            return true;
        }
        i = i + 1;
    }
    false
}

fn plans(plan: &ProbePlan, upto: usize, name: &String) -> (b: bool)
    requires
        upto <= plan.options.len(),
    ensures
        b == exists|j: int| 0 <= j < upto && (#[trigger] plan@.options[j]).0 == name@,
{
    let mut j: usize = 0;
    while j < upto
        invariant
            j <= upto <= plan.options.len(),
            forall|k: int| 0 <= k < j ==> (#[trigger] plan@.options[k]).0 != name@,
        decreases upto - j,
    {
        assert(plan@.options[j as int] == plan.options@[j as int]@);
        if plan.options[j].option == *name {
            return true;
        }
        j = j + 1;
    }
    false
}

fn check_entry(plan: &ProbePlan, candidates: &Vec<String>, i: usize) -> (r: Result<(), PlanError>)
    requires
        i < plan.options.len(),
    ensures
        match r {
            Ok(_) => entry_fault(plan@, views(candidates@), i as int) is None,
            Err(e) => entry_fault(plan@, views(candidates@), i as int) == Some(e@),
        },
{
    let planned = &plan.options[i];
    if !lists(candidates, &planned.option) {
        return Err(PlanError::UnknownOption(planned.option.clone()));
    }
    if plans(plan, i, &planned.option) {
        return Err(PlanError::DuplicateOption(planned.option.clone()));
    }
    if planned.probes.len() == 0 {
        return Err(PlanError::EmptyProbes(planned.option.clone()));
    }
    if planned.probes[0] != ProbeType::Existence {
        return Err(PlanError::ExistenceNotFirst(planned.option.clone()));
    }
    if planned.probes.len() > plan.budget.max_per_option {
        return Err(PlanError::PerOptionBudgetExceeded(planned.option.clone()));
    }
    Ok(())
}

fn missing_options(plan: &ProbePlan, candidates: &Vec<String>) -> (missing: Vec<String>)
    ensures
        views(missing@) == uncovered(plan@, views(candidates@)),
{
    let mut missing: Vec<String> = Vec::new();
    let mut n: usize = 0;
    while n < candidates.len()
        invariant
            n <= candidates.len(),
            views(missing@) == uncovered_upto(plan@, views(candidates@), n as int),
        decreases candidates.len() - n,
    {
        if !plans(plan, plan.options.len(), &candidates[n]) && !lists(&missing, &candidates[n]) {
            let name = candidates[n].clone();
            missing.push(name);
        }
        n = n + 1;
    }
    missing
}

/// Holds a plan against the request it answers.
pub fn validate_plan(plan: &ProbePlan, request: &PlannerRequest) -> (r: Result<(), PlanError>)
    ensures
        match r {
            Ok(_) => plan_fault(
                plan@,
                views(request.options@),
                request.budget,
                request.stop_rules,
            ) is None,
            Err(e) => plan_fault(
                plan@,
                views(request.options@),
                request.budget,
                request.stop_rules,
            ) == Some(e@),
        },
{
    if plan.budget.max_total != request.budget.max_total || plan.budget.max_per_option
        != request.budget.max_per_option {
        return Err(PlanError::BudgetMismatch);
    }
    if plan.stop_rules.stop_on_unrecognized != request.stop_rules.stop_on_unrecognized
        || plan.stop_rules.stop_on_binding_confirmed
        != request.stop_rules.stop_on_binding_confirmed {
        return Err(PlanError::StopRulesMismatch);
    }
    let mut total: usize = 0;
    let mut over = false;
    let mut i: usize = 0;
    while i < plan.options.len()
        invariant
            i <= plan.options.len(),
            plan.budget == request.budget,
            plan.stop_rules == request.stop_rules,
            entries_fault(plan@, views(request.options@), i as int) == entries_fault(
                plan@,
                views(request.options@),
                0,
            ),
            !over ==> total == probes_upto(plan@, i as int),
            over ==> probes_upto(plan@, i as int) > usize::MAX,
        decreases plan.options.len() - i,
    {
        match check_entry(plan, &request.options, i) {
            Ok(_) => {},
            Err(e) => {
                return Err(e);
            },
        }
        let count = plan.options[i].probes.len();
        if !over {
            match total.checked_add(count) {
                Some(sum) => {
                    total = sum;
                },
                None => {
                    over = true;
                },
            }
        }
        i = i + 1;
    }
    if over || total > plan.budget.max_total {
        return Err(PlanError::TotalBudgetExceeded);
    }
    let missing = missing_options(plan, &request.options);
    if missing.len() > 0 {
        return Err(PlanError::MissingOptions(missing));
    }
    Ok(())
}

/// The fault of a plan as its reader finds it: a plan needs a version, and
/// then has to meet its request.
pub open spec fn reading_fault(
    plan: PlanView,
    candidates: Seq<Seq<char>>,
    budget: ProbeBudget,
    stop_rules: StopRules,
) -> Option<PlanFault> {
    if trimmed(plan.planner_version).len() == 0 {
        Some(PlanFault::MissingVersion)
    } else {
        plan_fault(plan, candidates, budget, stop_rules)
    }
}

/// Accepts a plan that names its planner and meets the request, and keeps
/// the text it was read from.
pub fn accept_plan(plan: ProbePlan, raw_json: String, request: &PlannerRequest) -> (r: Result<
    PlannerOutput,
    PlanError,
>)
    ensures
        match r {
            Ok(output) => output.plan == plan && output.raw_json == raw_json && reading_fault(
                plan@,
                views(request.options@),
                request.budget,
                request.stop_rules,
            ) is None,
            Err(e) => reading_fault(
                plan@,
                views(request.options@),
                request.budget,
                request.stop_rules,
            ) == Some(e@),
        },
{
    let version = chars_of(plan.planner_version.as_str());
    if trim(version.as_slice()).len() == 0 {
        return Err(PlanError::MissingVersion);
    }
    match validate_plan(&plan, request) {
        Ok(_) => Ok(PlannerOutput { plan, raw_json }),
        Err(e) => Err(e),
    }
}

proof fn lemma_entries_fault_none(plan: PlanView, candidates: Seq<Seq<char>>, i: int, k: int)
    requires
        0 <= i <= k < plan.options.len(),
        entries_fault(plan, candidates, i) is None,
    ensures
        entry_fault(plan, candidates, k) is None,
    decreases k - i,
{
    if i < k {
        lemma_entries_fault_none(plan, candidates, i + 1, k);
    }
}

proof fn lemma_uncovered(plan: PlanView, candidates: Seq<Seq<char>>, n: int, k: int)
    requires
        0 <= k < n <= candidates.len(),
        uncovered_upto(plan, candidates, n).len() == 0,
    ensures
        is_planned(plan, candidates[k]),
    decreases n,
{
    if k < n - 1 {
        lemma_uncovered(plan, candidates, n - 1, k);
    }
}

/// A plan without fault stays within both budgets, begins every probe list
/// with the existence probe, plans no option twice, and plans exactly the
/// candidates of its request.
pub proof fn lemma_valid_plan(
    plan: PlanView,
    candidates: Seq<Seq<char>>,
    budget: ProbeBudget,
    stop_rules: StopRules,
)
    requires
        plan_fault(plan, candidates, budget, stop_rules) is None,
    ensures
        plan.budget == budget,
        plan.stop_rules == stop_rules,
        total_probes(plan) <= budget.max_total,
        forall|i: int|
            0 <= i < plan.options.len() ==> {
                &&& 0 < (#[trigger] plan.options[i]).1.len() <= budget.max_per_option
                &&& plan.options[i].1[0] == ProbeType::Existence
                &&& candidates.contains(plan.options[i].0)
            },
        forall|i: int, j: int|
            0 <= j < i < plan.options.len() ==> (#[trigger] plan.options[i]).0 != (
            #[trigger] plan.options[j]).0,
        forall|k: int| 0 <= k < candidates.len() ==> is_planned(plan, #[trigger] candidates[k]),
{
    assert forall|i: int| 0 <= i < plan.options.len() implies {
        &&& 0 < (#[trigger] plan.options[i]).1.len() <= budget.max_per_option
        &&& plan.options[i].1[0] == ProbeType::Existence
        &&& candidates.contains(plan.options[i].0)
        &&& !planned_before(plan, i)
    } by {
        lemma_entries_fault_none(plan, candidates, 0, i);
    }
    assert forall|i: int, j: int| 0 <= j < i < plan.options.len() implies (
    #[trigger] plan.options[i]).0 != (#[trigger] plan.options[j]).0 by {
    }
    assert forall|k: int| 0 <= k < candidates.len() implies is_planned(
        plan,
        #[trigger] candidates[k],
    ) by {
        lemma_uncovered(plan, candidates, candidates.len() as int, k);
    }
}

/// Why the planner gave no plan to read.
#[derive(Debug, Clone)]
pub enum PlannerError {
    /// The planner exited with a failure.
    CommandFailed { exit_code: Option<i32>, stderr: String },
    /// The planner wrote to its standard error.
    EmittedStderr(String),
    /// The planner wrote nothing but white space.
    EmptyOutput,
}

pub ghost enum PlannerFault {
    CommandFailed { exit_code: Option<i32>, stderr: Seq<char> },
    EmittedStderr(Seq<char>),
    EmptyOutput,
}

impl View for PlannerError {
    type V = PlannerFault;

    open spec fn view(&self) -> PlannerFault {
        match self {
            PlannerError::CommandFailed { exit_code, stderr } => PlannerFault::CommandFailed {
                exit_code: *exit_code,
                stderr: stderr@,
            },
            PlannerError::EmittedStderr(stderr) => PlannerFault::EmittedStderr(stderr@),
            PlannerError::EmptyOutput => PlannerFault::EmptyOutput,
        }
    }
}

/// What the planner's run amounts to: its trimmed output where it exited
/// with success, wrote nothing to standard error and something to standard
/// output.
pub open spec fn planner_reply(
    success: bool,
    exit_code: Option<i32>,
    stdout: Seq<u8>,
    stderr: Seq<u8>,
) -> Result<Seq<char>, PlannerFault> {
    if !success {
        Err(PlannerFault::CommandFailed { exit_code, stderr: utf8_lossy(stderr) })
    } else if stderr.len() > 0 {
        Err(PlannerFault::EmittedStderr(utf8_lossy(stderr)))
    } else if trimmed(utf8_lossy(stdout)).len() == 0 {
        Err(PlannerFault::EmptyOutput)
    } else {
        Ok(trimmed(utf8_lossy(stdout)))
    }
}

pub open spec fn reply_view(r: Result<String, PlannerError>) -> Result<Seq<char>, PlannerFault> {
    match r {
        Ok(raw) => Ok(raw@),
        Err(e) => Err(e@),
    }
}

/// Reads the outcome of the planner's run.
pub fn check_planner_reply(success: bool, exit_code: Option<i32>, stdout: &[u8], stderr: &[u8]) -> (r:
    Result<String, PlannerError>)
    ensures
        reply_view(r) == planner_reply(success, exit_code, stdout@, stderr@),
{
    if !success {
        return Err(PlannerError::CommandFailed { exit_code, stderr: lossy_text(stderr) });
    }
    if stderr.len() > 0 {
        return Err(PlannerError::EmittedStderr(lossy_text(stderr)));
    }
    let text = chars_of(lossy_text(stdout).as_str());
    let raw = trim(text.as_slice());
    if raw.len() == 0 {
        return Err(PlannerError::EmptyOutput);
    }
    Ok(string_of(raw))
}

pub open spec fn fault_message(fault: PlanFault) -> Seq<char> {
    match fault {
        PlanFault::MissingVersion => "planner_version is required"@,
        PlanFault::BudgetMismatch => "planner budget does not match requested budget"@,
        PlanFault::StopRulesMismatch => "planner stop rules do not match requested stop rules"@,
        PlanFault::UnknownOption(o) => "planner returned unknown option: "@ + o,
        PlanFault::DuplicateOption(o) => "planner returned duplicate option: "@ + o,
        PlanFault::EmptyProbes(o) => "planner returned empty probe list for "@ + o,
        PlanFault::ExistenceNotFirst(o) => "planner must start probes with existence for "@ + o,
        PlanFault::PerOptionBudgetExceeded(o) => "planner exceeded per-option probe budget for "@
            + o,
        PlanFault::TotalBudgetExceeded => "planner exceeded total probe budget"@,
        PlanFault::MissingOptions(missing) => "planner did not cover all options; missing "@
            + debug_list(missing),
    }
}

fn about(prefix: &str, option: &String) -> (text: String)
    ensures
        text@ == prefix@ + option@,
{
    let chars = chars_of(option.as_str());
    join2(prefix, chars.as_slice())
}

impl PlanError {
    /// The fault in words.
    pub fn message(&self) -> (text: String)
        ensures
            text@ == fault_message(self@),
    {
        match self {
            PlanError::MissingVersion => "planner_version is required".to_owned(),
            PlanError::BudgetMismatch => "planner budget does not match requested budget".to_owned(),
            PlanError::StopRulesMismatch => "planner stop rules do not match requested stop rules".to_owned(),
            PlanError::UnknownOption(o) => about("planner returned unknown option: ", o),
            PlanError::DuplicateOption(o) => about("planner returned duplicate option: ", o),
            PlanError::EmptyProbes(o) => about("planner returned empty probe list for ", o),
            PlanError::ExistenceNotFirst(o) => about(
                "planner must start probes with existence for ",
                o,
            ),
            PlanError::PerOptionBudgetExceeded(o) => about(
                "planner exceeded per-option probe budget for ",
                o,
            ),
            PlanError::TotalBudgetExceeded => "planner exceeded total probe budget".to_owned(),
            PlanError::MissingOptions(missing) => {
                let listing = debug_listing(missing);
                about("planner did not cover all options; missing ", &listing)
            },
        }
    }
}

/// An exit code as planner faults show it.
pub open spec fn exit_text(exit_code: Option<i32>) -> Seq<char> {
    match exit_code {
        Some(code) => "Some("@ + decimal(code as int) + ")"@,
        None => "None"@,
    }
}

pub open spec fn planner_fault_message(fault: PlannerFault) -> Seq<char> {
    match fault {
        PlannerFault::CommandFailed { exit_code, stderr } => "planner command failed: exit="@
            + exit_text(exit_code) + " stderr="@ + stderr,
        PlannerFault::EmittedStderr(stderr) => "planner command emitted stderr: "@ + stderr,
        PlannerFault::EmptyOutput => "planner returned empty output"@,
    }
}

impl PlannerError {
    /// The fault in words.
    pub fn message(&self) -> (text: String)
        ensures
            text@ == planner_fault_message(self@),
    {
        match self {
            PlannerError::CommandFailed { exit_code, stderr } => {
                let mut buf = chars_of("planner command failed: exit=");
                match exit_code {
                    Some(code) => {
                        push_str(&mut buf, "Some(");
                        push_decimal(*code, &mut buf);
                        push_str(&mut buf, ")");
                    },
                    None => {
                        push_str(&mut buf, "None");
                    },
                }
                push_str(&mut buf, " stderr=");
                push_str(&mut buf, stderr.as_str());
                string_of(buf.as_slice())
            },
            PlannerError::EmittedStderr(stderr) => about("planner command emitted stderr: ", stderr),
            PlannerError::EmptyOutput => "planner returned empty output".to_owned(),
        }
    }
}

} // verus!
