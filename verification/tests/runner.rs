use binary_man::binary::{check_binary, check_binary_name, InputError};
use binary_man::contract::{env_contract, env_map, ENV_LC_ALL, ENV_PATH, ENV_TERM, ENV_TZ};
use binary_man::limits::{child_limits, Resource, ScenarioLimits};
use binary_man::runner::{
    attempt_of_run, attempt_of_spawn_error, poll_step, run_result, sandbox_args, PollAction,
};
use binary_man::validate::{classify_attempt, validation_env};
use binary_man::schema::ValidationStatus;

#[test]
fn contract_has_four_variables() {
    assert_eq!(ENV_LC_ALL, "C");
    assert_eq!(ENV_TZ, "UTC");
    assert_eq!(ENV_TERM, "dumb");
    assert_eq!(ENV_PATH, "/bin:/usr/bin");
    let contract = env_contract();
    assert_eq!(contract.lc_all, "C");
    assert_eq!(contract.tz, "UTC");
    assert_eq!(contract.term, "dumb");
    let vars = env_map(&validation_env());
    let pairs: Vec<(&str, &str)> = vars
        .iter()
        .map(|var| (var.name.as_str(), var.value.as_str()))
        .collect();
    assert_eq!(
        pairs,
        vec![
            ("LC_ALL", "C"),
            ("PATH", "/bin:/usr/bin"),
            ("TERM", "dumb"),
            ("TZ", "UTC")
        ]
    );
}

#[test]
fn limits_are_set_in_order() {
    let limits = ScenarioLimits {
        wall_time_ms: 2000,
        cpu_time_ms: 1001,
        memory_kb: 65536,
        file_size_kb: u64::MAX,
    };
    let list = child_limits(limits);
    let kinds: Vec<Resource> = list.iter().map(|l| l.resource).collect();
    assert_eq!(
        kinds,
        vec![
            Resource::CpuSeconds,
            Resource::AddressSpace,
            Resource::FileSize,
            Resource::OpenFiles
        ]
    );
    let values: Vec<u64> = list.iter().map(|l| l.value).collect();
    assert_eq!(values, vec![2, 65536 * 1024, u64::MAX, 128]);
    let round = child_limits(ScenarioLimits {
        wall_time_ms: 0,
        cpu_time_ms: 3000,
        memory_kb: 0,
        file_size_kb: 1,
    });
    assert_eq!(round[0].value, 3);
    assert_eq!(round[1].value, 0);
    assert_eq!(round[2].value, 1024);
    assert_eq!(child_limits(ScenarioLimits {
        wall_time_ms: 0,
        cpu_time_ms: 0,
        memory_kb: 0,
        file_size_kb: 0,
    })[0].value, 0);
}

#[test]
fn sandbox_command_line_is_fixed() {
    let args = vec!["--all".to_string(), "--help".to_string()];
    let argv = sandbox_args("/run/bin", "/run/fixture", "ls", &args);
    let expected = vec![
        "--die-with-parent",
        "--unshare-net",
        "--tmpfs",
        "/",
        "--dir",
        "/proc",
        "--dir",
        "/dev",
        "--dir",
        "/tmp",
        "--dir",
        "/bin",
        "--dir",
        "/work",
        "--dir",
        "/nix",
        "--dir",
        "/nix/store",
        "--proc",
        "/proc",
        "--dev",
        "/dev",
        "--tmpfs",
        "/tmp",
        "--ro-bind",
        "/nix/store",
        "/nix/store",
        "--ro-bind",
        "/run/bin",
        "/bin",
        "--bind",
        "/run/fixture",
        "/work",
        "--chdir",
        "/work",
        "--clearenv",
        "--setenv",
        "LC_ALL",
        "C",
        "--setenv",
        "TZ",
        "UTC",
        "--setenv",
        "TERM",
        "dumb",
        "--setenv",
        "PATH",
        "/bin:/usr/bin",
        "--",
        "/bin/ls",
        "--all",
        "--help",
    ];
    assert_eq!(argv, expected);
}

#[test]
fn wall_clock_rule_terminates_late_children() {
    assert_eq!(poll_step(true, 0, 2000), PollAction::Reap);
    assert_eq!(poll_step(true, 5000, 2000), PollAction::Reap);
    assert_eq!(poll_step(false, 2000, 2000), PollAction::Wait);
    assert_eq!(poll_step(false, 2001, 2000), PollAction::Terminate);
    assert_eq!(poll_step(false, u128::MAX, u64::MAX), PollAction::Terminate);
}

#[test]
fn timed_out_runs_have_no_exit_code() {
    let result = run_result(Some(9), true, 2003, b"out".to_vec(), b"err".to_vec());
    assert!(result.timed_out);
    assert_eq!(result.wall_time_ms, 2003);
    let attempt = attempt_of_run(vec!["--all".to_string()], result);
    assert_eq!(attempt.exit_code, None);
    assert_eq!(attempt.stdout, b"out");
    assert_eq!(attempt.stderr, b"err");
    let (status, note) = classify_attempt("--all", &attempt);
    assert_eq!(status, ValidationStatus::Undetermined);
    assert_eq!(note.as_deref(), Some("terminated without exit code"));
    let done = run_result(Some(0), false, u128::MAX, Vec::new(), Vec::new());
    assert_eq!(done.wall_time_ms, u64::MAX);
    assert_eq!(attempt_of_run(Vec::new(), done).exit_code, Some(0));
    let failed = attempt_of_spawn_error(vec!["-x".to_string()], "boom".to_string());
    assert_eq!(failed.spawn_error.as_deref(), Some("boom"));
    assert_eq!(failed.exit_code, None);
}

#[test]
fn targets_have_to_be_executable_files() {
    assert_eq!(check_binary(true, 0o755), Ok(()));
    assert_eq!(check_binary(true, 0o100644 | 0o010), Ok(()));
    assert_eq!(check_binary(true, 0o644), Err(InputError::NotExecutable));
    assert_eq!(check_binary(false, 0o755), Err(InputError::NotRegularFile));
    assert_eq!(check_binary_name("ls"), Ok(()));
    assert_eq!(check_binary_name(" \t"), Err(InputError::Empty));
    assert_eq!(InputError::Empty.message(), "binary is empty");
    assert_eq!(
        InputError::NotRegularFile.message(),
        "binary is not a regular file"
    );
    assert_eq!(InputError::NotExecutable.message(), "binary is not executable");
}
