//! Isolated execution: the sandbox command line and the wall-clock rule.

use crate::contract::{ENV_LC_ALL, ENV_PATH, ENV_TERM, ENV_TZ};
use crate::signals::ExecutionAttempt;
use crate::text::{chars_of, join2, lemma_views_push, views};
use vstd::prelude::*;

verus! {

/// Output captured from one execution.
#[derive(Debug, Clone)]
pub struct RunResult {
    pub exit_code: Option<i32>,
    pub timed_out: bool,
    pub wall_time_ms: u64,
    pub stdout: Vec<u8>,
    pub stderr: Vec<u8>,
}

/// The container tool that runs sandboxed children.
pub const SANDBOX_TOOL: &'static str = "bwrap";

/// The store that the sandbox binds read-only.
pub const STORE_ROOT: &'static str = "/nix/store";

/// The name of the binary in the sandbox where its path has no file name.
pub const DEFAULT_BINARY_NAME: &'static str = "binary";

/// The sandbox setup that does not depend on the run: a fresh root, the
/// directories to mount on, `/proc`, `/dev` and `/tmp`, and no network.
pub open spec fn sandbox_base() -> Seq<Seq<char>> {
    seq![
        "--die-with-parent"@,
        "--unshare-net"@,
        "--tmpfs"@,
        "/"@,
        "--dir"@,
        "/proc"@,
        "--dir"@,
        "/dev"@,
        "--dir"@,
        "/tmp"@,
        "--dir"@,
        "/bin"@,
        "--dir"@,
        "/work"@,
        "--dir"@,
        "/nix"@,
        "--dir"@,
        "/nix/store"@,
        "--proc"@,
        "/proc"@,
        "--dev"@,
        "/dev"@,
        "--tmpfs"@,
        "/tmp"@,
    ]
}

/// The mounts of a run: the store and the directory of the binary
/// read-only, the fixture read-write as the working directory.
pub open spec fn sandbox_mounts(bin_root: Seq<char>, fixture_root: Seq<char>) -> Seq<Seq<char>> {
    seq![
        "--ro-bind"@,
        STORE_ROOT@,
        STORE_ROOT@,
        "--ro-bind"@,
        bin_root,
        "/bin"@,
        "--bind"@,
        fixture_root,
        "/work"@,
        "--chdir"@,
        "/work"@,
    ]
}

/// The environment of a sandboxed child: cleared, then the four variables
/// of the contract.
pub open spec fn sandbox_env() -> Seq<Seq<char>> {
    seq![
        "--clearenv"@,
        "--setenv"@,
        "LC_ALL"@,
        ENV_LC_ALL@,
        "--setenv"@,
        "TZ"@,
        ENV_TZ@,
        "--setenv"@,
        "TERM"@,
        ENV_TERM@,
        "--setenv"@,
        "PATH"@,
        ENV_PATH@,
    ]
}

/// The arguments of the container tool for one run: setup, mounts and
/// environment, then the copy of the binary in the sandbox and its
/// arguments.
pub open spec fn sandbox_argv(
    bin_root: Seq<char>,
    fixture_root: Seq<char>,
    binary_name: Seq<char>,
    args: Seq<Seq<char>>,
) -> Seq<Seq<char>> {
    sandbox_base() + sandbox_mounts(bin_root, fixture_root) + sandbox_env() + seq![
        "--"@,
        "/bin/"@ + binary_name,
    ] + args
}

fn push_arg(argv: &mut Vec<String>, arg: &str)
    ensures
        views(final(argv)@) == views(old(argv)@).push(arg@),
{
    let owned = arg.to_owned();
    argv.push(owned);
}

fn push_base(argv: &mut Vec<String>)
    ensures
        views(final(argv)@) == views(old(argv)@) + sandbox_base(),
{
    push_arg(argv, "--die-with-parent");
    push_arg(argv, "--unshare-net");
    push_arg(argv, "--tmpfs");
    push_arg(argv, "/");
    push_arg(argv, "--dir");
    push_arg(argv, "/proc");
    push_arg(argv, "--dir");
    push_arg(argv, "/dev");
    push_arg(argv, "--dir");
    push_arg(argv, "/tmp");
    push_arg(argv, "--dir");
    push_arg(argv, "/bin");
    push_arg(argv, "--dir");
    push_arg(argv, "/work");
    push_arg(argv, "--dir");
    push_arg(argv, "/nix");
    push_arg(argv, "--dir");
    push_arg(argv, "/nix/store");
    push_arg(argv, "--proc");
    push_arg(argv, "/proc");
    push_arg(argv, "--dev");
    push_arg(argv, "/dev");
    push_arg(argv, "--tmpfs");
    push_arg(argv, "/tmp");
}

fn push_mounts(argv: &mut Vec<String>, bin_root: &str, fixture_root: &str)
    ensures
        views(final(argv)@) == views(old(argv)@) + sandbox_mounts(bin_root@, fixture_root@),
{
    push_arg(argv, "--ro-bind");
    push_arg(argv, STORE_ROOT);
    push_arg(argv, STORE_ROOT);
    push_arg(argv, "--ro-bind");
    push_arg(argv, bin_root);
    push_arg(argv, "/bin");
    push_arg(argv, "--bind");
    push_arg(argv, fixture_root);
    push_arg(argv, "/work");
    push_arg(argv, "--chdir");
    push_arg(argv, "/work");
}

fn push_env(argv: &mut Vec<String>)
    ensures
        views(final(argv)@) == views(old(argv)@) + sandbox_env(),
{
    push_arg(argv, "--clearenv");
    push_arg(argv, "--setenv");
    push_arg(argv, "LC_ALL");
    push_arg(argv, ENV_LC_ALL);
    push_arg(argv, "--setenv");
    push_arg(argv, "TZ");
    push_arg(argv, ENV_TZ);
    push_arg(argv, "--setenv");
    push_arg(argv, "TERM");
    push_arg(argv, ENV_TERM);
    push_arg(argv, "--setenv");
    push_arg(argv, "PATH");
    push_arg(argv, ENV_PATH);
}

/// The command line that runs a binary in the sandbox. `bin_root` holds
/// the copy of the binary under `binary_name`; `fixture_root` becomes the
/// working directory.
pub fn sandbox_args(bin_root: &str, fixture_root: &str, binary_name: &str, args: &Vec<String>) -> (argv:
    Vec<String>)
    ensures
        views(argv@) == sandbox_argv(bin_root@, fixture_root@, binary_name@, views(args@)),
{
    let mut argv: Vec<String> = Vec::new();
    push_base(&mut argv);
    push_mounts(&mut argv, bin_root, fixture_root);
    push_env(&mut argv);
    push_arg(&mut argv, "--");
    let name = chars_of(binary_name);
    let inside = join2("/bin/", name.as_slice());
    proof {
        lemma_views_push(argv@, inside);
    }
    argv.push(inside);
    let ghost head = views(argv@);
    assert(head =~= sandbox_base() + sandbox_mounts(bin_root@, fixture_root@) + sandbox_env()
        + seq!["--"@, "/bin/"@ + binary_name@]);
    let mut i: usize = 0;
    while i < args.len()
        invariant
            i <= args.len(),
            views(argv@) == head + views(args@).take(i as int),
        decreases args.len() - i,
    {
        let arg = args[i].clone();
        proof {
            lemma_views_push(argv@, arg);
        }
        argv.push(arg);
        i = i + 1;
    }
    argv
}

/// What the executor does with a child it has polled.
#[derive(Debug, Clone, Copy, PartialEq, Eq, Structural)]
pub enum PollAction {
    /// The child has exited: reap it.
    Reap,
    /// The child has had its wall-clock time: terminate its process group
    /// and record that it timed out.
    Terminate,
    /// Poll again after the interval.
    Wait,
}

/// The interval between two polls of a child, in milliseconds.
pub const POLL_INTERVAL_MS: u64 = 5;

/// The wall-clock rule: a child that has not exited is terminated once
/// more time has passed than it may take.
pub open spec fn poll_rule(exited: bool, elapsed_ms: u128, wall_time_ms: u64) -> PollAction {
    if exited {
        PollAction::Reap
    } else if elapsed_ms > wall_time_ms {
        PollAction::Terminate
    } else {
        PollAction::Wait
    }
}

/// Decides what to do with a child that was just polled.
pub fn poll_step(exited: bool, elapsed_ms: u128, wall_time_ms: u64) -> (action: PollAction)
    ensures
        action == poll_rule(exited, elapsed_ms, wall_time_ms),
{
    if exited {
        PollAction::Reap
    } else if elapsed_ms > wall_time_ms as u128 {
        PollAction::Terminate
    } else {
        PollAction::Wait
    }
}

/// The result of a run from what the executor saw of it.
pub fn run_result(
    exit_code: Option<i32>,
    timed_out: bool,
    elapsed_ms: u128,
    stdout: Vec<u8>,
    stderr: Vec<u8>,
) -> (result: RunResult)
    ensures
        result.exit_code == exit_code,
        result.timed_out == timed_out,
        result.wall_time_ms == (if elapsed_ms <= u64::MAX {
            elapsed_ms as u64
        } else {
            u64::MAX
        }),
        result.stdout == stdout,
        result.stderr == stderr,
{
    let wall_time_ms: u64 = if elapsed_ms <= u64::MAX as u128 {
        elapsed_ms as u64
    } else {
        u64::MAX
    };
    RunResult { exit_code, timed_out, wall_time_ms, stdout, stderr }
}

/// What a probe did, as classification reads it. A child that was
/// terminated for its wall-clock time counts as one without an exit code.
pub fn attempt_of_run(args: Vec<String>, result: RunResult) -> (attempt: ExecutionAttempt)
    ensures
        attempt.args == args,
        attempt.exit_code == (if result.timed_out {
            None
        } else {
            result.exit_code
        }),
        attempt.stdout == result.stdout,
        attempt.stderr == result.stderr,
        attempt.spawn_error is None,
{
    ExecutionAttempt {
        args,
        exit_code: if result.timed_out {
            None
        } else {
            result.exit_code
        },
        stdout: result.stdout,
        stderr: result.stderr,
        spawn_error: None,
    }
}

/// A probe that could not be started, with the reason.
pub fn attempt_of_spawn_error(args: Vec<String>, message: String) -> (attempt: ExecutionAttempt)
    ensures
        attempt.args == args,
        attempt.exit_code is None,
        attempt.stdout@.len() == 0,
        attempt.stderr@.len() == 0,
        attempt.spawn_error == Some(message),
{
    ExecutionAttempt {
        args,
        exit_code: None,
        stdout: Vec::new(),
        stderr: Vec::new(),
        spawn_error: Some(message),
    }
}

} // verus!
