//! Data model of surface extraction: identities, plans, verdicts, reports.

use crate::digest::{blake3_hex, blake3_hex_of};
use crate::text::{lemma_views_push, lossy_text, utf8_lossy, views};
use vstd::prelude::*;

verus! {

/// What identifies the binary under test across runs.
#[derive(Debug, Clone)]
pub struct BinaryIdentity {
    pub path: String,
    pub hash: Hash,
    pub platform: Platform,
    pub env: EnvSnapshot,
}

/// A content hash: algorithm tag and lower-case hexadecimal value.
#[derive(Debug, Clone)]
pub struct Hash {
    pub algo: String,
    pub value: String,
}

#[derive(Debug, Clone)]
pub struct Platform {
    pub os: String,
    pub arch: String,
}

/// The environment that every child invocation is given.
#[derive(Debug, Clone)]
pub struct EnvSnapshot {
    pub locale: String,
    pub tz: String,
    pub term: String,
}

/// What one self-report invocation printed.
#[derive(Debug, Clone)]
pub struct CaptureOutput {
    pub args: Vec<String>,
    pub exit_code: Option<i32>,
    pub stdout: String,
    pub stderr: String,
}

#[derive(Debug, Clone)]
pub struct SelfReport {
    pub help: CaptureOutput,
    pub version: CaptureOutput,
    pub usage_error: CaptureOutput,
}

/// The planner's probe schedule.
#[derive(Debug, Clone)]
pub struct ProbePlan {
    pub planner_version: String,
    pub options: Vec<PlannedOption>,
    pub budget: ProbeBudget,
    pub stop_rules: StopRules,
}

#[derive(Debug, Clone)]
pub struct PlannedOption {
    pub option: String,
    pub probes: Vec<ProbeType>,
}

#[derive(Debug, Clone, Copy, PartialEq, Eq, Structural)]
pub struct ProbeBudget {
    pub max_total: usize,
    pub max_per_option: usize,
}

#[derive(Debug, Clone, Copy, PartialEq, Eq, Structural)]
pub struct StopRules {
    pub stop_on_unrecognized: bool,
    pub stop_on_binding_confirmed: bool,
}

#[derive(Debug, Clone, Copy, PartialEq, Eq, Structural)]
pub enum ProbeType {
    Existence,
    InvalidValue,
    OptionAtEnd,
}

#[derive(Debug, Clone)]
pub struct SurfaceReport {
    pub invoked_path: String,
    pub binary_identity: BinaryIdentity,
    pub planner: PlannerInfo,
    pub probe_library_version: String,
    pub timings_ms: Timings,
    pub self_report: SelfReport,
    pub options: Vec<OptionSurface>,
    pub higher_tiers: HigherTierStatus,
}

#[derive(Debug, Clone)]
pub struct PlannerInfo {
    pub version: String,
    pub plan_hash: String,
}

#[derive(Debug, Clone, Copy)]
pub struct Timings {
    pub planner_ms: u128,
    pub probes_ms: u128,
    pub total_ms: u128,
}

/// One option of the report with its two verdicts.
#[derive(Debug, Clone)]
pub struct OptionSurface {
    pub option: String,
    pub existence: TierResult,
    pub binding: BindingResult,
}

#[derive(Debug, Clone)]
pub struct TierResult {
    pub status: ValidationStatus,
    pub reason: Option<String>,
    pub evidence: Vec<Evidence>,
}

#[derive(Debug, Clone)]
pub struct BindingResult {
    pub status: ValidationStatus,
    pub kind: Option<BindingKind>,
    pub reason: Option<String>,
    pub evidence: Vec<Evidence>,
}

#[derive(Debug, Clone, Copy, PartialEq, Eq, Structural)]
pub enum BindingKind {
    NoValue,
    Required,
    Optional,
}

#[derive(Debug, Clone, Copy, PartialEq, Eq, Structural)]
pub enum ValidationStatus {
    Confirmed,
    Refuted,
    Undetermined,
}

/// One variable of a child's environment.
#[derive(Debug, Clone)]
pub struct EnvVar {
    pub name: String,
    pub value: String,
}

/// The record of one probe: what was run and hashes of what it printed.
#[derive(Debug, Clone)]
pub struct Evidence {
    pub args: Vec<String>,
    pub env: Vec<EnvVar>,
    pub exit_code: Option<i32>,
    pub stdout: Option<String>,
    pub stderr: Option<String>,
    pub notes: Option<String>,
}

#[derive(Debug, Clone, Copy)]
pub struct HigherTierStatus {
    pub t2: TierStatus,
    pub t3: TierStatus,
    pub t4: TierStatus,
}

#[derive(Debug, Clone, Copy, PartialEq, Eq, Structural)]
pub enum TierStatus {
    NotEvaluated,
}

impl View for EnvVar {
    type V = (Seq<char>, Seq<char>);

    open spec fn view(&self) -> (Seq<char>, Seq<char>) {
        (self.name@, self.value@)
    }
}

pub open spec fn text_view(text: Option<String>) -> Option<Seq<char>> {
    match text {
        Some(s) => Some(s@),
        None => None,
    }
}

pub ghost struct EvidenceView {
    pub args: Seq<Seq<char>>,
    pub env: Seq<(Seq<char>, Seq<char>)>,
    pub exit_code: Option<i32>,
    pub stdout: Option<Seq<char>>,
    pub stderr: Option<Seq<char>>,
    pub notes: Option<Seq<char>>,
}

impl View for Evidence {
    type V = EvidenceView;

    open spec fn view(&self) -> EvidenceView {
        EvidenceView {
            args: views(self.args@),
            env: views(self.env@),
            exit_code: self.exit_code,
            stdout: text_view(self.stdout),
            stderr: text_view(self.stderr),
            notes: text_view(self.notes),
        }
    }
}

pub ghost struct TierView {
    pub status: ValidationStatus,
    pub reason: Option<Seq<char>>,
    pub evidence: Seq<EvidenceView>,
}

impl View for TierResult {
    type V = TierView;

    open spec fn view(&self) -> TierView {
        TierView {
            status: self.status,
            reason: text_view(self.reason),
            evidence: views(self.evidence@),
        }
    }
}

pub ghost struct BindingView {
    pub status: ValidationStatus,
    pub kind: Option<BindingKind>,
    pub reason: Option<Seq<char>>,
    pub evidence: Seq<EvidenceView>,
}

impl View for BindingResult {
    type V = BindingView;

    open spec fn view(&self) -> BindingView {
        BindingView {
            status: self.status,
            kind: self.kind,
            reason: text_view(self.reason),
            evidence: views(self.evidence@),
        }
    }
}

pub ghost struct SurfaceView {
    pub option: Seq<char>,
    pub existence: TierView,
    pub binding: BindingView,
}

impl View for OptionSurface {
    type V = SurfaceView;

    open spec fn view(&self) -> SurfaceView {
        SurfaceView { option: self.option@, existence: self.existence@, binding: self.binding@ }
    }
}

/// A copy of a list of strings.
pub fn copy_strings(items: &Vec<String>) -> (out: Vec<String>)
    ensures
        views(out@) == views(items@),
{
    let mut out: Vec<String> = Vec::new();
    let mut i: usize = 0;
    while i < items.len()
        invariant
            i <= items.len(),
            views(out@) =~= views(items@).take(i as int),
        decreases items.len() - i,
    {
        let item = items[i].clone();
        proof {
            lemma_views_push(out@, item);
        }
        out.push(item);
        i = i + 1;
    }
    out
}

pub fn copy_text(text: &Option<String>) -> (out: Option<String>)
    ensures
        text_view(out) == text_view(*text),
{
    match text {
        Some(s) => Some(s.clone()),
        None => None,
    }
}

pub fn copy_env(env: &Vec<EnvVar>) -> (out: Vec<EnvVar>)
    ensures
        views(out@) == views(env@),
{
    let mut out: Vec<EnvVar> = Vec::new();
    let mut i: usize = 0;
    while i < env.len()
        invariant
            i <= env.len(),
            views(out@) =~= views(env@).take(i as int),
        decreases env.len() - i,
    {
        let item = EnvVar { name: env[i].name.clone(), value: env[i].value.clone() };
        proof {
            lemma_views_push(out@, item);
        }
        out.push(item);
        i = i + 1;
    }
    out
}

/// A copy of an evidence record.
pub fn copy_evidence(evidence: &Evidence) -> (out: Evidence)
    ensures
        out@ == evidence@,
{
    Evidence {
        args: copy_strings(&evidence.args),
        env: copy_env(&evidence.env),
        exit_code: evidence.exit_code,
        stdout: copy_text(&evidence.stdout),
        stderr: copy_text(&evidence.stderr),
        notes: copy_text(&evidence.notes),
    }
}

pub ghost struct CaptureView {
    pub args: Seq<Seq<char>>,
    pub exit_code: Option<i32>,
    pub stdout: Seq<char>,
    pub stderr: Seq<char>,
}

impl View for CaptureOutput {
    type V = CaptureView;

    open spec fn view(&self) -> CaptureView {
        CaptureView {
            args: views(self.args@),
            exit_code: self.exit_code,
            stdout: self.stdout@,
            stderr: self.stderr@,
        }
    }
}

pub ghost struct SelfReportView {
    pub help: CaptureView,
    pub version: CaptureView,
    pub usage_error: CaptureView,
}

impl View for SelfReport {
    type V = SelfReportView;

    open spec fn view(&self) -> SelfReportView {
        SelfReportView {
            help: self.help@,
            version: self.version@,
            usage_error: self.usage_error@,
        }
    }
}

pub fn copy_capture(capture: &CaptureOutput) -> (out: CaptureOutput)
    ensures
        out@ == capture@,
{
    CaptureOutput {
        args: copy_strings(&capture.args),
        exit_code: capture.exit_code,
        stdout: capture.stdout.clone(),
        stderr: capture.stderr.clone(),
    }
}

pub fn copy_self_report(report: &SelfReport) -> (out: SelfReport)
    ensures
        out@ == report@,
{
    SelfReport {
        help: copy_capture(&report.help),
        version: copy_capture(&report.version),
        usage_error: copy_capture(&report.usage_error),
    }
}

/// What a self-report invocation printed, decoded as text.
pub fn capture_from(args: Vec<String>, exit_code: Option<i32>, stdout: &[u8], stderr: &[u8]) -> (capture:
    CaptureOutput)
    ensures
        capture@ == (CaptureView {
            args: views(args@),
            exit_code,
            stdout: utf8_lossy(stdout@),
            stderr: utf8_lossy(stderr@),
        }),
{
    CaptureOutput { args, exit_code, stdout: lossy_text(stdout), stderr: lossy_text(stderr) }
}

/// The algorithm tag of every content hash.
pub const HASH_ALGO: &'static str = "blake3";

/// The identity of a binary from its resolved path, its bytes, the platform
/// and the environment snapshot.
pub fn compute_binary_identity_with_env(
    path: &str,
    bytes: &[u8],
    os: &str,
    arch: &str,
    env: EnvSnapshot,
) -> (identity: BinaryIdentity)
    ensures
        identity.path@ == path@,
        identity.hash.algo@ == HASH_ALGO@,
        identity.hash.value@ == blake3_hex(bytes@),
        identity.platform.os@ == os@,
        identity.platform.arch@ == arch@,
        identity.env == env,
{
    BinaryIdentity {
        path: path.to_owned(),
        hash: Hash { algo: HASH_ALGO.to_owned(), value: blake3_hex_of(bytes) },
        platform: Platform { os: os.to_owned(), arch: arch.to_owned() },
        env,
    }
}

} // verus!
