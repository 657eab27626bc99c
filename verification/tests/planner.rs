use binary_man::planner::{
    accept_plan, check_planner_reply, probe_library, validate_plan, PlanError, PlannerError,
    PlannerRequest, PROBE_LIBRARY_VERSION,
};
use binary_man::schema::{
    CaptureOutput, PlannedOption, ProbeBudget, ProbePlan, ProbeType, SelfReport, StopRules,
};

fn capture() -> CaptureOutput {
    CaptureOutput {
        args: Vec::new(),
        exit_code: Some(0),
        stdout: String::new(),
        stderr: String::new(),
    }
}

fn request(options: &[&str], max_total: usize, max_per_option: usize) -> PlannerRequest {
    PlannerRequest {
        self_report: SelfReport {
            help: capture(),
            version: capture(),
            usage_error: capture(),
        },
        options: options.iter().map(|o| o.to_string()).collect(),
        probe_library: probe_library(),
        budget: ProbeBudget {
            max_total,
            max_per_option,
        },
        stop_rules: StopRules {
            stop_on_unrecognized: true,
            stop_on_binding_confirmed: true,
        },
    }
}

fn planned(option: &str, probes: &[ProbeType]) -> PlannedOption {
    PlannedOption {
        option: option.to_string(),
        probes: probes.to_vec(),
    }
}

fn plan(options: Vec<PlannedOption>, max_total: usize, max_per_option: usize) -> ProbePlan {
    ProbePlan {
        planner_version: "stub-v1".to_string(),
        options,
        budget: ProbeBudget {
            max_total,
            max_per_option,
        },
        stop_rules: StopRules {
            stop_on_unrecognized: true,
            stop_on_binding_confirmed: true,
        },
    }
}

const FULL: [ProbeType; 3] = [
    ProbeType::Existence,
    ProbeType::InvalidValue,
    ProbeType::OptionAtEnd,
];

#[test]
fn probe_library_lists_three_probes() {
    let library = probe_library();
    assert_eq!(library.version, "v1");
    assert_eq!(library.version, PROBE_LIBRARY_VERSION);
    let kinds: Vec<ProbeType> = library.probes.iter().map(|p| p.probe).collect();
    assert_eq!(kinds, FULL.to_vec());
    assert_eq!(
        library.probes[0].description,
        "Run <opt> --help and detect unrecognized or ambiguous responses."
    );
    assert_eq!(
        library.probes[1].description,
        "Run <opt> with a dummy value and --help to detect argument binding."
    );
    assert_eq!(
        library.probes[2].description,
        "Run <opt> at end (no --help) to detect missing-arg responses."
    );
}

#[test]
fn accepts_a_plan_that_covers_the_request() {
    let req = request(&["-a", "--all"], 6, 3);
    let good = plan(
        vec![planned("--all", &FULL), planned("-a", &FULL[..1])],
        6,
        3,
    );
    assert!(validate_plan(&good, &req).is_ok());
    let total: usize = good.options.iter().map(|o| o.probes.len()).sum();
    assert!(total <= good.budget.max_total);
    let output = accept_plan(good, "{}".to_string(), &req).expect("accepted plan");
    assert_eq!(output.raw_json, "{}");
    assert_eq!(output.plan.options.len(), 2);
}

#[test]
fn rejects_a_budget_that_is_not_echoed() {
    let req = request(&["-a"], 3, 3);
    let bad = plan(vec![planned("-a", &FULL)], 4, 3);
    let err = validate_plan(&bad, &req).expect_err("budget mismatch");
    assert!(matches!(err, PlanError::BudgetMismatch));
    assert_eq!(err.message(), "planner budget does not match requested budget");
    let bad = plan(vec![planned("-a", &FULL)], 3, 2);
    assert!(matches!(
        validate_plan(&bad, &req),
        Err(PlanError::BudgetMismatch)
    ));
}

#[test]
fn rejects_stop_rules_that_are_not_echoed() {
    let req = request(&["-a"], 3, 3);
    let mut bad = plan(vec![planned("-a", &FULL)], 3, 3);
    bad.stop_rules.stop_on_binding_confirmed = false;
    let err = validate_plan(&bad, &req).expect_err("stop rules mismatch");
    assert!(matches!(err, PlanError::StopRulesMismatch));
    assert_eq!(
        err.message(),
        "planner stop rules do not match requested stop rules"
    );
}

#[test]
fn rejects_unknown_and_duplicate_options() {
    let req = request(&["-a", "-b"], 6, 3);
    let unknown = plan(vec![planned("-a", &FULL), planned("-c", &FULL)], 6, 3);
    let err = validate_plan(&unknown, &req).expect_err("unknown option");
    assert!(matches!(&err, PlanError::UnknownOption(o) if o == "-c"));
    assert_eq!(err.message(), "planner returned unknown option: -c");
    let twice = plan(
        vec![planned("-a", &FULL[..1]), planned("-a", &FULL[..1])],
        6,
        3,
    );
    let err = validate_plan(&twice, &req).expect_err("duplicate option");
    assert!(matches!(&err, PlanError::DuplicateOption(o) if o == "-a"));
    assert_eq!(err.message(), "planner returned duplicate option: -a");
}

#[test]
fn rejects_probe_lists_that_break_the_rules() {
    let req = request(&["-a"], 3, 2);
    let empty = plan(vec![planned("-a", &[])], 3, 2);
    let err = validate_plan(&empty, &req).expect_err("empty probes");
    assert!(matches!(&err, PlanError::EmptyProbes(o) if o == "-a"));
    assert_eq!(err.message(), "planner returned empty probe list for -a");
    let late = plan(
        vec![planned("-a", &[ProbeType::InvalidValue, ProbeType::Existence])],
        3,
        2,
    );
    let err = validate_plan(&late, &req).expect_err("existence not first");
    assert!(matches!(&err, PlanError::ExistenceNotFirst(o) if o == "-a"));
    assert_eq!(
        err.message(),
        "planner must start probes with existence for -a"
    );
    let long = plan(vec![planned("-a", &FULL)], 3, 2);
    let err = validate_plan(&long, &req).expect_err("per-option budget");
    assert!(matches!(&err, PlanError::PerOptionBudgetExceeded(o) if o == "-a"));
    assert_eq!(
        err.message(),
        "planner exceeded per-option probe budget for -a"
    );
}

#[test]
fn rejects_too_many_probes_and_missing_options() {
    let req = request(&["-a", "-b", "-b", "-c"], 4, 3);
    let many = plan(
        vec![
            planned("-a", &FULL),
            planned("-b", &FULL[..2]),
            planned("-c", &FULL[..1]),
        ],
        4,
        3,
    );
    let err = validate_plan(&many, &req).expect_err("total budget");
    assert!(matches!(err, PlanError::TotalBudgetExceeded));
    assert_eq!(err.message(), "planner exceeded total probe budget");
    let partial = plan(vec![planned("-a", &FULL)], 4, 3);
    let err = validate_plan(&partial, &req).expect_err("missing options");
    match &err {
        PlanError::MissingOptions(missing) => {
            assert_eq!(missing, &vec!["-b".to_string(), "-c".to_string()]);
        }
        other => panic!("unexpected fault: {:?}", other),
    }
    assert_eq!(
        err.message(),
        "planner did not cover all options; missing [\"-b\", \"-c\"]"
    );
}

#[test]
fn a_plan_needs_a_version() {
    let req = request(&["-a"], 3, 3);
    let mut nameless = plan(vec![planned("-a", &FULL)], 3, 3);
    nameless.planner_version = "  \t".to_string();
    let err = accept_plan(nameless, String::new(), &req).expect_err("missing version");
    assert!(matches!(err, PlanError::MissingVersion));
    assert_eq!(err.message(), "planner_version is required");
}

#[test]
fn planner_reply_is_its_trimmed_output() {
    let reply = check_planner_reply(true, Some(0), b"  {\"a\": 1}\n", b"").expect("reply");
    assert_eq!(reply, "{\"a\": 1}");
}

#[test]
fn planner_failures_are_faults() {
    let err = check_planner_reply(false, Some(3), b"{}", b"bad\n").expect_err("failed");
    assert!(matches!(
        &err,
        PlannerError::CommandFailed { exit_code: Some(3), stderr } if stderr == "bad\n"
    ));
    assert_eq!(
        err.message(),
        "planner command failed: exit=Some(3) stderr=bad\n"
    );
    let err = check_planner_reply(false, None, b"", b"").expect_err("killed");
    assert_eq!(err.message(), "planner command failed: exit=None stderr=");
    let err = check_planner_reply(true, Some(0), b"{}", b"warning").expect_err("stderr");
    assert!(matches!(&err, PlannerError::EmittedStderr(s) if s == "warning"));
    assert_eq!(err.message(), "planner command emitted stderr: warning");
    let err = check_planner_reply(true, Some(0), b" \n\t", b"").expect_err("empty");
    assert!(matches!(err, PlannerError::EmptyOutput));
    assert_eq!(err.message(), "planner returned empty output");
}
