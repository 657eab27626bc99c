use binary_man::help::{extract_help_options, ValueForm};
use binary_man::probe::{probe_args, probe_label, probe_run};
use binary_man::schema::{
    BindingKind, PlannedOption, ProbeBudget, ProbePlan, ProbeType, StopRules, ValidationStatus,
};
use binary_man::signals::ExecutionAttempt;
use binary_man::surface::{
    execute_plan, find_hint, finish_option, next_probe, record_probe, replay_option,
    start_option,
};
use binary_man::validate::validation_env;

fn attempt(args: &[&str], stdout: &str, stderr: &str, exit_code: i32) -> ExecutionAttempt {
    ExecutionAttempt {
        args: args.iter().map(|a| a.to_string()).collect(),
        exit_code: Some(exit_code),
        stdout: stdout.as_bytes().to_vec(),
        stderr: stderr.as_bytes().to_vec(),
        spawn_error: None,
    }
}

fn planned(option: &str, probes: &[ProbeType]) -> PlannedOption {
    PlannedOption {
        option: option.to_string(),
        probes: probes.to_vec(),
    }
}

const FULL: [ProbeType; 3] = [
    ProbeType::Existence,
    ProbeType::InvalidValue,
    ProbeType::OptionAtEnd,
];

const BOTH: StopRules = StopRules {
    stop_on_unrecognized: true,
    stop_on_binding_confirmed: true,
};

const NEITHER: StopRules = StopRules {
    stop_on_unrecognized: false,
    stop_on_binding_confirmed: false,
};

#[test]
fn probe_arguments_name_the_option() {
    assert_eq!(
        probe_args(ProbeType::Existence, "--all", None),
        vec!["--all".to_string(), "--help".to_string()]
    );
    assert_eq!(
        probe_args(ProbeType::InvalidValue, "--color", None),
        vec!["--color=__bvm__".to_string(), "--help".to_string()]
    );
    assert_eq!(
        probe_args(ProbeType::InvalidValue, "-w", None),
        vec!["-w".to_string(), "__bvm__".to_string(), "--help".to_string()]
    );
    assert_eq!(
        probe_args(ProbeType::InvalidValue, "--width", Some(ValueForm::Trailing)),
        vec![
            "--width".to_string(),
            "__bvm__".to_string(),
            "--help".to_string()
        ]
    );
    assert_eq!(
        probe_args(ProbeType::InvalidValue, "-w", Some(ValueForm::Attached)),
        vec!["-w=__bvm__".to_string(), "--help".to_string()]
    );
    assert_eq!(
        probe_args(ProbeType::OptionAtEnd, "--width", Some(ValueForm::Attached)),
        vec!["--width".to_string()]
    );
    for probe in FULL {
        for form in [None, Some(ValueForm::Attached), Some(ValueForm::Trailing)] {
            let args = probe_args(probe, "--opt", form);
            assert!(args[0].starts_with("--opt"));
        }
    }
}

#[test]
fn probe_runs_keep_hashes_and_labels() {
    let env = validation_env();
    let run = probe_run(
        ProbeType::InvalidValue,
        "--color",
        None,
        attempt(
            &["something", "else"],
            "raw output",
            "invalid argument '__bvm__' for '--color'",
            2,
        ),
        &env,
    );
    assert!(run.analysis.invalid_arg);
    assert_eq!(run.evidence.args, vec!["--color=__bvm__", "--help"]);
    assert_eq!(run.evidence.exit_code, Some(2));
    assert_eq!(run.evidence.notes.as_deref(), Some("probe=invalid_value"));
    let stdout = run.evidence.stdout.expect("stdout hash");
    let stderr = run.evidence.stderr.expect("stderr hash");
    assert!(stdout.starts_with("blake3:") && stdout.len() == 71);
    assert!(stderr.starts_with("blake3:") && stderr.len() == 71);
    assert!(!stdout.contains("raw output"));
    assert_ne!(stdout, stderr);
    assert_eq!(probe_label(ProbeType::Existence), "existence");
    assert_eq!(probe_label(ProbeType::OptionAtEnd), "option_at_end");
}

#[test]
fn probes_run_in_plan_order_until_the_plan_is_through() {
    let env = validation_env();
    let plan = planned("--all", &FULL);
    let mut progress = start_option();
    assert_eq!(next_probe(&plan, &progress), Some(ProbeType::Existence));
    progress = record_probe(
        &plan,
        progress,
        attempt(&["--all", "--help"], "Usage: tool", "", 0),
        &env,
        NEITHER,
        None,
    );
    assert_eq!(next_probe(&plan, &progress), Some(ProbeType::InvalidValue));
    progress = record_probe(
        &plan,
        progress,
        attempt(&["--all=__bvm__", "--help"], "", "", 1),
        &env,
        NEITHER,
        None,
    );
    assert_eq!(next_probe(&plan, &progress), Some(ProbeType::OptionAtEnd));
    progress = record_probe(&plan, progress, attempt(&["--all"], "", "", 0), &env, NEITHER, None);
    assert_eq!(next_probe(&plan, &progress), None);
    assert_eq!(progress.next, 3);
    progress = record_probe(&plan, progress, attempt(&["--all"], "", "", 0), &env, NEITHER, None);
    assert_eq!(progress.next, 3);
    let surface = finish_option("--all", progress, None);
    assert_eq!(surface.option, "--all");
    assert_eq!(surface.existence.status, ValidationStatus::Confirmed);
    assert_eq!(surface.existence.evidence.len(), 1);
    assert_eq!(surface.binding.evidence.len(), 3);
    assert_eq!(surface.binding.status, ValidationStatus::Undetermined);
    assert_eq!(surface.binding.kind, None);
    assert_eq!(
        surface.binding.reason.as_deref(),
        Some("insufficient binding evidence")
    );
    assert_eq!(
        surface.binding.evidence[0].notes.as_deref(),
        Some("probe=existence")
    );
    assert_eq!(
        surface.binding.evidence[1].notes.as_deref(),
        Some("probe=invalid_value")
    );
    assert_eq!(
        surface.binding.evidence[2].notes.as_deref(),
        Some("probe=option_at_end")
    );
}

#[test]
fn a_refuted_option_is_probed_no_further() {
    let env = validation_env();
    let plan = planned("--nope", &FULL);
    let attempts = vec![
        attempt(
            &["--nope", "--help"],
            "",
            "error: unrecognized option '--nope'",
            2,
        ),
        attempt(&["--nope=__bvm__", "--help"], "", "", 0),
    ];
    let surface = replay_option(&plan, attempts, &env, BOTH, None);
    assert_eq!(surface.existence.status, ValidationStatus::Refuted);
    assert_eq!(surface.existence.reason, None);
    assert_eq!(surface.existence.evidence.len(), 1);
    assert_eq!(surface.binding.status, ValidationStatus::Undetermined);
    assert_eq!(surface.binding.kind, None);
    assert_eq!(
        surface.binding.reason.as_deref(),
        Some("option existence not confirmed")
    );
    assert_eq!(surface.binding.evidence.len(), 1);
}

#[test]
fn a_refuted_option_is_probed_on_where_the_rule_is_off() {
    let env = validation_env();
    let plan = planned("--nope", &FULL);
    let attempts = vec![
        attempt(
            &["--nope", "--help"],
            "",
            "error: unrecognized option '--nope'",
            2,
        ),
        attempt(&["--nope=__bvm__", "--help"], "", "", 0),
    ];
    let surface = replay_option(&plan, attempts, &env, NEITHER, None);
    assert_eq!(surface.existence.status, ValidationStatus::Refuted);
    assert_eq!(surface.binding.status, ValidationStatus::Undetermined);
    assert_eq!(surface.binding.evidence.len(), 2);
}

#[test]
fn a_confirmed_binding_ends_the_probes() {
    let env = validation_env();
    let plan = planned("--all", &FULL);
    let attempts = vec![
        attempt(&["--all", "--help"], "Usage: tool", "", 0),
        attempt(
            &["--all=__bvm__", "--help"],
            "",
            "option '--all' doesn't allow an argument",
            2,
        ),
        attempt(&["--all"], "", "", 0),
    ];
    let surface = replay_option(&plan, attempts, &env, BOTH, None);
    assert_eq!(surface.existence.status, ValidationStatus::Confirmed);
    assert_eq!(surface.binding.status, ValidationStatus::Confirmed);
    assert_eq!(surface.binding.kind, Some(BindingKind::NoValue));
    assert_eq!(surface.binding.evidence.len(), 2);
    assert_eq!(surface.existence.evidence.len(), 1);
}

#[test]
fn an_option_without_probes_has_no_evidence() {
    let surface = finish_option("--all", start_option(), None);
    assert_eq!(surface.existence.status, ValidationStatus::Undetermined);
    assert_eq!(
        surface.existence.reason.as_deref(),
        Some("existence probe not run")
    );
    assert!(surface.existence.evidence.is_empty());
    assert!(surface.binding.evidence.is_empty());
    assert_eq!(
        surface.binding.reason.as_deref(),
        Some("option existence not confirmed")
    );
}

#[test]
fn a_lone_existence_probe_leaves_the_binding_open() {
    let env = validation_env();
    let plan = planned("--all", &FULL[..1]);
    let attempts = vec![attempt(&["--all", "--help"], "Usage: tool", "", 0)];
    let surface = replay_option(&plan, attempts, &env, BOTH, None);
    assert_eq!(surface.existence.status, ValidationStatus::Confirmed);
    assert_eq!(surface.binding.status, ValidationStatus::Undetermined);
    assert_eq!(
        surface.binding.reason.as_deref(),
        Some("invalid-value probe not run")
    );
}

#[test]
fn hints_are_found_by_option() {
    let options = extract_help_options("  -w, --width=COLS  width\n  -a  all\n");
    let hint = find_hint(&options, "--width").expect("hint of --width");
    assert_eq!(hint.form, ValueForm::Attached);
    assert!(!hint.optional);
    assert!(find_hint(&options, "-a").is_none());
    assert!(find_hint(&options, "--other").is_none());
}

#[test]
fn surfaces_come_in_plan_order() {
    let env = validation_env();
    let help = extract_help_options("  --color[=WHEN]  color\n  -a  all\n  -z  last\n");
    let plan = ProbePlan {
        planner_version: "stub-v1".to_string(),
        options: vec![
            planned("-a", &FULL),
            planned("--color", &FULL[..2]),
            planned("-z", &FULL[..1]),
        ],
        budget: ProbeBudget {
            max_total: 9,
            max_per_option: 3,
        },
        stop_rules: BOTH,
    };
    let outcomes = vec![
        vec![
            attempt(&[], "", "tool: invalid option -- 'a'", 2),
            attempt(&[], "", "", 0),
        ],
        vec![
            attempt(&[], "Usage: tool", "", 0),
            attempt(&[], "Usage: tool", "", 0),
        ],
    ];
    let surfaces = execute_plan(&plan, &help, &env, outcomes);
    let names: Vec<&str> = surfaces.iter().map(|s| s.option.as_str()).collect();
    assert_eq!(names, vec!["-a", "--color", "-z"]);
    assert_eq!(surfaces[0].existence.status, ValidationStatus::Refuted);
    assert_eq!(surfaces[0].binding.evidence.len(), 1);
    assert_eq!(
        surfaces[0].existence.evidence[0].args,
        vec!["-a".to_string(), "--help".to_string()]
    );
    assert_eq!(surfaces[1].existence.status, ValidationStatus::Confirmed);
    assert_eq!(surfaces[1].binding.status, ValidationStatus::Confirmed);
    assert_eq!(surfaces[1].binding.kind, Some(BindingKind::Optional));
    assert_eq!(
        surfaces[1].binding.reason.as_deref(),
        Some("no argument errors detected with attached value")
    );
    assert_eq!(
        surfaces[1].binding.evidence[1].args,
        vec!["--color=__bvm__".to_string(), "--help".to_string()]
    );
    assert_eq!(surfaces[2].existence.status, ValidationStatus::Undetermined);
    assert_eq!(
        surfaces[2].existence.reason.as_deref(),
        Some("existence probe not run")
    );
    assert!(surfaces[2].binding.evidence.is_empty());
}
