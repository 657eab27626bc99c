//! Report assembly: help selection, the planner request, the cache key and
//! the surface report.

use crate::digest::{hash_text, text_hash};
use crate::help::{extract_help_options, help_options, HelpOption, HelpRecord};
use crate::planner::{library_probes, PlannerRequest, probe_library, PROBE_LIBRARY_VERSION};
use crate::schema::{
    BinaryIdentity, CaptureOutput, copy_self_report, HigherTierStatus, OptionSurface, PlannerInfo,
    ProbeBudget, SelfReport, StopRules, SurfaceReport, TierStatus, Timings,
};
use crate::text::{chars_of, lemma_views_push, push_str, string_of, trim, trimmed, views};
use vstd::prelude::*;

verus! {

/// The output root where none is given.
pub const DEFAULT_OUT_DIR: &'static str = "out";

/// The unknown long option of the usage-error capture.
pub const USAGE_ERROR_ARG: &'static str = "--__bvm_unknown__";

/// The per-option probe budget where none is given.
pub const DEFAULT_MAX_PER_OPTION: usize = 3;

/// The help text of a capture: its standard output unless that is blank,
/// else its standard error unless that is blank.
pub open spec fn help_text(stdout: Seq<char>, stderr: Seq<char>) -> Option<Seq<char>> {
    if trimmed(stdout).len() > 0 {
        Some(stdout)
    } else if trimmed(stderr).len() > 0 {
        Some(stderr)
    } else {
        None
    }
}

fn is_blank_text(text: &str) -> (b: bool)
    ensures
        b == (trimmed(text@).len() == 0),
{
    let chars = chars_of(text);
    trim(chars.as_slice()).len() == 0
}

/// Selects the help text of a capture.
pub fn select_help_text(capture: &CaptureOutput) -> (text: Option<&str>)
    ensures
        match text {
            Some(t) => help_text(capture.stdout@, capture.stderr@) == Some(t@),
            None => help_text(capture.stdout@, capture.stderr@) is None,
        },
{
    if !is_blank_text(capture.stdout.as_str()) {
        Some(capture.stdout.as_str())
    } else if !is_blank_text(capture.stderr.as_str()) {
        Some(capture.stderr.as_str())
    } else {
        None
    }
}

/// Whether `-h` has to be tried: `--help` gave no help text.
pub fn needs_help_fallback(primary: &CaptureOutput) -> (b: bool)
    ensures
        b == (help_text(primary.stdout@, primary.stderr@) is None),
{
    select_help_text(primary).is_none()
}

/// The help capture of the self-report: that of `-h` where it gave help
/// text, else that of `--help`.
pub fn pick_help(primary: CaptureOutput, fallback: CaptureOutput) -> (help: CaptureOutput)
    ensures
        help == if help_text(fallback.stdout@, fallback.stderr@) is Some {
            fallback
        } else {
            primary
        },
{
    if select_help_text(&fallback).is_some() {
        fallback
    } else {
        primary
    }
}

/// The text that the cache key is the hash of.
pub open spec fn cache_material(
    hash: Seq<char>,
    os: Seq<char>,
    arch: Seq<char>,
    locale: Seq<char>,
    tz: Seq<char>,
    term: Seq<char>,
    planner_version: Seq<char>,
    probe_version: Seq<char>,
) -> Seq<char> {
    "hash="@ + hash + ";os="@ + os + ";arch="@ + arch + ";lc_all="@ + locale + ";tz="@ + tz
        + ";term="@ + term + ";planner="@ + planner_version + ";probe_lib="@ + probe_version
}

/// The cache key of a run: a function of the binary's hash, the platform,
/// the environment contract and the two versions, and of nothing else.
pub open spec fn cache_key_of(
    identity: BinaryIdentity,
    planner_version: Seq<char>,
    probe_version: Seq<char>,
) -> Seq<char> {
    text_hash(
        cache_material(
            identity.hash.value@,
            identity.platform.os@,
            identity.platform.arch@,
            identity.env.locale@,
            identity.env.tz@,
            identity.env.term@,
            planner_version,
            probe_version,
        ),
    )
}

/// Computes the cache key of a run.
pub fn cache_key(identity: &BinaryIdentity, planner_version: &str, probe_version: &str) -> (key:
    String)
    ensures
        key@ == cache_key_of(*identity, planner_version@, probe_version@),
{
    let mut buf = chars_of("hash=");
    push_str(&mut buf, identity.hash.value.as_str());
    push_str(&mut buf, ";os=");
    push_str(&mut buf, identity.platform.os.as_str());
    push_str(&mut buf, ";arch=");
    push_str(&mut buf, identity.platform.arch.as_str());
    push_str(&mut buf, ";lc_all=");
    push_str(&mut buf, identity.env.locale.as_str());
    push_str(&mut buf, ";tz=");
    push_str(&mut buf, identity.env.tz.as_str());
    push_str(&mut buf, ";term=");
    push_str(&mut buf, identity.env.term.as_str());
    push_str(&mut buf, ";planner=");
    push_str(&mut buf, planner_version);
    push_str(&mut buf, ";probe_lib=");
    push_str(&mut buf, probe_version);
    let material = string_of(buf.as_slice());
    hash_text(material.as_str())
}

/// Runs on binaries with the same hash, platform and environment, planned
/// and probed at the same versions, share their cache key, whatever the
/// paths of the binaries.
pub proof fn lemma_cache_key_inputs(
    a: BinaryIdentity,
    b: BinaryIdentity,
    planner_version: Seq<char>,
    probe_version: Seq<char>,
)
    requires
        a.hash.value@ == b.hash.value@,
        a.platform.os@ == b.platform.os@,
        a.platform.arch@ == b.platform.arch@,
        a.env.locale@ == b.env.locale@,
        a.env.tz@ == b.env.tz@,
        a.env.term@ == b.env.term@,
    ensures
        cache_key_of(a, planner_version, probe_version) == cache_key_of(
            b,
            planner_version,
            probe_version,
        ),
{
}

/// The total budget where none is given: as many probes as every option
/// may have, and no more than the machine can count.
pub open spec fn default_total(options: nat, max_per_option: nat) -> nat {
    if options * max_per_option <= usize::MAX {
        options * max_per_option
    } else {
        usize::MAX as nat
    }
}

/// The budget of a request for `options` options.
pub fn probe_budget(options: usize, max_per_option: usize, max_total: Option<usize>) -> (budget:
    ProbeBudget)
    ensures
        budget.max_per_option == max_per_option,
        budget.max_total == match max_total {
            Some(total) => total as nat,
            None => default_total(options as nat, max_per_option as nat),
        },
{
    let total = match max_total {
        Some(total) => total,
        None => match options.checked_mul(max_per_option) {
            Some(product) => product,
            None => usize::MAX,
        },
    };
    ProbeBudget { max_total: total, max_per_option }
}

/// Why no plan can be asked for.
#[derive(Debug, Clone, Copy, PartialEq, Eq, Structural)]
pub enum SurfaceError {
    /// Neither help capture printed anything.
    HelpUnavailable { exit_code: Option<i32> },
    /// The help text names no option.
    NoOptions,
}

/// The option tokens of the records, in order.
pub open spec fn option_names(records: Seq<HelpRecord>) -> Seq<Seq<char>> {
    records.map_values(|r: HelpRecord| r.option)
}

fn names_of(options: &Vec<HelpOption>) -> (names: Vec<String>)
    ensures
        views(names@) == option_names(views(options@)),
{
    let mut names: Vec<String> = Vec::new();
    let mut i: usize = 0;
    while i < options.len()
        invariant
            i <= options.len(),
            views(names@) =~= option_names(views(options@)).take(i as int),
        decreases options.len() - i,
    {
        let name = options[i].option.clone();
        proof {
            lemma_views_push(names@, name);
        }
        names.push(name);
        i = i + 1;
    }
    names
}

/// The stop rules of every request.
pub open spec fn default_stop_rules() -> StopRules {
    StopRules { stop_on_unrecognized: true, stop_on_binding_confirmed: true }
}

/// Parses the help text of a self-report and builds the planner request
/// for its options.
pub fn plan_request(self_report: &SelfReport, max_per_option: usize, max_total: Option<usize>) -> (r:
    Result<(Vec<HelpOption>, PlannerRequest), SurfaceError>)
    ensures
        match r {
            Ok((options, request)) => {
                let text = help_text(self_report.help.stdout@, self_report.help.stderr@);
                &&& text is Some
                &&& views(options@) == help_options(text->0)
                &&& options.len() > 0
                &&& request.self_report@ == self_report@
                &&& views(request.options@) == option_names(views(options@))
                &&& request.probe_library.version@ == PROBE_LIBRARY_VERSION@
                &&& views(request.probe_library.probes@) == library_probes()
                &&& request.budget.max_per_option == max_per_option
                &&& request.budget.max_total == match max_total {
                    Some(total) => total as nat,
                    None => default_total(options.len() as nat, max_per_option as nat),
                }
                &&& request.stop_rules == default_stop_rules()
            },
            Err(e) => {
                let text = help_text(self_report.help.stdout@, self_report.help.stderr@);
                if text is None {
                    e == (SurfaceError::HelpUnavailable { exit_code: self_report.help.exit_code })
                } else {
                    e == SurfaceError::NoOptions && help_options(text->0).len() == 0
                }
            },
        },
{
    let text = match select_help_text(&self_report.help) {
        Some(text) => text,
        None => {
            return Err(SurfaceError::HelpUnavailable { exit_code: self_report.help.exit_code });
        },
    };
    let options = extract_help_options(text);
    if options.len() == 0 {
        return Err(SurfaceError::NoOptions);
    }
    let names = names_of(&options);
    assert(names.len() == options.len()) by {
        assert(views(names@).len() == names.len());
    }
    let budget = probe_budget(names.len(), max_per_option, max_total);
    let request = PlannerRequest {
        self_report: copy_self_report(self_report),
        options: names,
        probe_library: probe_library(),
        budget,
        stop_rules: StopRules { stop_on_unrecognized: true, stop_on_binding_confirmed: true },
    };
    Ok((options, request))
}

/// The report of a run. The higher tiers are not evaluated.
pub fn assemble_report(
    invoked_path: String,
    binary_identity: BinaryIdentity,
    planner_version: String,
    plan_hash: String,
    timings_ms: Timings,
    self_report: SelfReport,
    options: Vec<OptionSurface>,
) -> (report: SurfaceReport)
    ensures
        report.invoked_path == invoked_path,
        report.binary_identity == binary_identity,
        report.planner.version == planner_version,
        report.planner.plan_hash == plan_hash,
        report.probe_library_version@ == PROBE_LIBRARY_VERSION@,
        report.timings_ms == timings_ms,
        report.self_report == self_report,
        report.options == options,
        report.higher_tiers.t2 == TierStatus::NotEvaluated,
        report.higher_tiers.t3 == TierStatus::NotEvaluated,
        report.higher_tiers.t4 == TierStatus::NotEvaluated,
{
    SurfaceReport {
        invoked_path,
        binary_identity,
        planner: PlannerInfo { version: planner_version, plan_hash },
        probe_library_version: PROBE_LIBRARY_VERSION.to_owned(),
        timings_ms,
        self_report,
        options,
        higher_tiers: HigherTierStatus {
            t2: TierStatus::NotEvaluated,
            t3: TierStatus::NotEvaluated,
            t4: TierStatus::NotEvaluated,
        },
    }
}

} // verus!
