use binary_man::binding::{classify_binding_attempts, infer_binding, BindingExpectation};
use binary_man::help::ValueForm;
use binary_man::schema::{BindingKind, ValidationStatus};
use binary_man::signals::ExecutionAttempt;
use binary_man::validate::{
    analyze_binding_attempt, build_with_arg_args, classify_attempt, extract_form_text,
    missing_arg_args, option_from_binding_claim_id, option_from_claim_id, parse_binding_expectation,
    validate_option_binding, validate_option_existence, validation_env, Claim,
};

fn attempt_from_output(stderr: &str) -> ExecutionAttempt {
    ExecutionAttempt {
        args: Vec::new(),
        exit_code: Some(2),
        stdout: Vec::new(),
        stderr: stderr.as_bytes().to_vec(),
        spawn_error: None,
    }
}

fn attempt_from_output_with_code(stderr: &str, exit_code: i32) -> ExecutionAttempt {
    ExecutionAttempt {
        args: Vec::new(),
        exit_code: Some(exit_code),
        stdout: Vec::new(),
        stderr: stderr.as_bytes().to_vec(),
        spawn_error: None,
    }
}

fn attempt_with(stdout: &str, stderr: &str, exit_code: i32) -> ExecutionAttempt {
    ExecutionAttempt {
        args: Vec::new(),
        exit_code: Some(exit_code),
        stdout: stdout.as_bytes().to_vec(),
        stderr: stderr.as_bytes().to_vec(),
        spawn_error: None,
    }
}

#[test]
fn refutes_when_unrecognized_option_matches_claim() {
    let attempt = attempt_from_output("error: unrecognized option '--nope'");
    let (status, note) = classify_attempt("--nope", &attempt);
    assert!(matches!(status, ValidationStatus::Refuted));
    assert!(note.is_none());
}

#[test]
fn undetermined_when_unrecognized_option_is_different() {
    let attempt = attempt_from_output("error: unrecognized option '--help'");
    let (status, note) = classify_attempt("--all", &attempt);
    assert!(matches!(status, ValidationStatus::Undetermined));
    assert!(note.is_some());
}

#[test]
fn confirms_when_argument_missing() {
    let attempt = attempt_from_output("option '--block-size' requires an argument");
    let (status, note) = classify_attempt("--block-size", &attempt);
    assert!(matches!(status, ValidationStatus::Confirmed));
    assert!(note.is_some());
}

#[test]
fn refutes_getopt_short_option_error() {
    let attempt = attempt_from_output("invalid option -- 'i'");
    let (status, note) = classify_attempt("-i", &attempt);
    assert!(matches!(status, ValidationStatus::Refuted));
    assert!(note.is_none());
}

#[test]
fn undetermined_on_spawn_error() {
    let attempt = ExecutionAttempt {
        args: Vec::new(),
        exit_code: None,
        stdout: Vec::new(),
        stderr: Vec::new(),
        spawn_error: Some("boom".to_string()),
    };
    let (status, note) = classify_attempt("--all", &attempt);
    assert!(matches!(status, ValidationStatus::Undetermined));
    assert_eq!(note.as_deref(), Some("spawn failed: boom"));
}

#[test]
fn confirms_required_binding_on_missing_argument() {
    let missing = attempt_from_output("option '--size' requires an argument");
    let with_arg = attempt_from_output("");
    let missing_analysis = analyze_binding_attempt("--size", &missing);
    let with_arg_analysis = analyze_binding_attempt("--size", &with_arg);
    let (status, _) = classify_binding_attempts(
        BindingExpectation::Required,
        &missing_analysis,
        &with_arg_analysis,
    );
    assert!(matches!(status, ValidationStatus::Confirmed));
}

#[test]
fn refutes_optional_binding_on_missing_argument() {
    let missing = attempt_from_output("option '--size' requires an argument");
    let with_arg = attempt_from_output("");
    let missing_analysis = analyze_binding_attempt("--size", &missing);
    let with_arg_analysis = analyze_binding_attempt("--size", &with_arg);
    let (status, _) = classify_binding_attempts(
        BindingExpectation::Optional,
        &missing_analysis,
        &with_arg_analysis,
    );
    assert!(matches!(status, ValidationStatus::Refuted));
}

#[test]
fn confirms_optional_binding_on_invalid_argument() {
    let missing = attempt_from_output_with_code("", 0);
    let with_arg = attempt_from_output("invalid argument 'nope' for '--color'");
    let missing_analysis = analyze_binding_attempt("--color", &missing);
    let with_arg_analysis = analyze_binding_attempt("--color", &with_arg);
    let (status, _) = classify_binding_attempts(
        BindingExpectation::Optional,
        &missing_analysis,
        &with_arg_analysis,
    );
    assert!(matches!(status, ValidationStatus::Confirmed));
}

#[test]
fn refutes_optional_binding_on_argument_not_allowed() {
    let missing = attempt_from_output_with_code("", 0);
    let with_arg = attempt_from_output("option '--all' doesn't allow an argument");
    let missing_analysis = analyze_binding_attempt("--all", &missing);
    let with_arg_analysis = analyze_binding_attempt("--all", &with_arg);
    let (status, _) = classify_binding_attempts(
        BindingExpectation::Optional,
        &missing_analysis,
        &with_arg_analysis,
    );
    assert!(matches!(status, ValidationStatus::Refuted));
}

#[test]
fn refutes_required_binding_on_unrecognized_option() {
    let missing = attempt_from_output("error: unrecognized option '--ghost'");
    let with_arg = attempt_from_output("");
    let missing_analysis = analyze_binding_attempt("--ghost", &missing);
    let with_arg_analysis = analyze_binding_attempt("--ghost", &with_arg);
    let (status, _) = classify_binding_attempts(
        BindingExpectation::Required,
        &missing_analysis,
        &with_arg_analysis,
    );
    assert!(matches!(status, ValidationStatus::Refuted));
}

#[test]
fn mismatch_note_lists_the_reported_option() {
    let attempt = attempt_from_output("error: unrecognized option '--help'");
    let (status, note) = classify_attempt("--all", &attempt);
    assert_eq!(status, ValidationStatus::Undetermined);
    assert_eq!(
        note.as_deref(),
        Some("unrecognized option marker (unrecognized option) for [\"--help\"]")
    );
    let analysis = analyze_binding_attempt("--all", &attempt);
    assert!(!analysis.unrecognized);
    assert_eq!(
        analysis.notes,
        vec!["unrecognized option marker (unrecognized option) for [\"--help\"]".to_string()]
    );
}

#[test]
fn missing_argument_confirms_existence_and_required_binding() {
    let missing = attempt_from_output("option '--block-size' requires an argument");
    let (status, note) = classify_attempt("--block-size", &missing);
    assert_eq!(status, ValidationStatus::Confirmed);
    assert_eq!(
        note.as_deref(),
        Some("nonzero exit (2) without unrecognized option marker; argument error reported")
    );
    let quiet = attempt_from_output_with_code("", 0);
    let missing_analysis = analyze_binding_attempt("--block-size", &missing);
    assert!(missing_analysis.missing_arg);
    assert!(missing_analysis.argument_error);
    let invalid_analysis = analyze_binding_attempt("--block-size", &quiet);
    let (status, kind, reason) = infer_binding(&missing_analysis, &invalid_analysis, None, None);
    assert_eq!(status, ValidationStatus::Confirmed);
    assert_eq!(kind, Some(BindingKind::Required));
    assert_eq!(reason.as_deref(), Some("missing argument response observed"));
}

#[test]
fn argument_not_allowed_confirms_no_value() {
    let missing = analyze_binding_attempt("--all", &attempt_from_output_with_code("", 0));
    let invalid = analyze_binding_attempt(
        "--all",
        &attempt_from_output("option '--all' doesn't allow an argument"),
    );
    assert!(invalid.arg_not_allowed);
    let (status, kind, reason) = infer_binding(&missing, &invalid, None, None);
    assert_eq!(status, ValidationStatus::Confirmed);
    assert_eq!(kind, Some(BindingKind::NoValue));
    assert_eq!(reason.as_deref(), Some("argument not allowed response observed"));
}

#[test]
fn invalid_argument_confirms_optional() {
    let missing = analyze_binding_attempt("--color", &attempt_from_output_with_code("", 0));
    let invalid = analyze_binding_attempt(
        "--color",
        &attempt_from_output("invalid argument 'nope' for '--color'"),
    );
    assert!(invalid.invalid_arg);
    let (status, kind, reason) = infer_binding(&missing, &invalid, None, None);
    assert_eq!(status, ValidationStatus::Confirmed);
    assert_eq!(kind, Some(BindingKind::Optional));
    assert_eq!(reason.as_deref(), Some("invalid argument response observed"));
}

#[test]
fn help_consumed_by_missing_probe_confirms_required() {
    let missing = analyze_binding_attempt("--hide", &attempt_with("file1\nfile2", "", 0));
    let invalid = analyze_binding_attempt(
        "--hide",
        &attempt_with(
            "Usage: tool [OPTION]",
            "invalid argument '__bvm__' for '--hide'",
            1,
        ),
    );
    assert!(!missing.help_like);
    assert!(invalid.help_like);
    assert!(invalid.invalid_arg);
    let (status, kind, reason) = infer_binding(&missing, &invalid, None, None);
    assert_eq!(status, ValidationStatus::Confirmed);
    assert_eq!(kind, Some(BindingKind::Required));
    assert_eq!(
        reason.as_deref(),
        Some("missing probe likely consumed --help; invalid argument observed")
    );
}

#[test]
fn invalid_tab_size_falls_back_to_tabsize() {
    let attempt = attempt_from_output("ls: invalid tab size: '--help'");
    let analysis = analyze_binding_attempt("--tabsize", &attempt);
    assert!(analysis.invalid_arg);
    assert_eq!(
        analysis.notes,
        vec!["invalid argument fallback (invalid tab size) attributed to --tabsize".to_string()]
    );
    let other = analyze_binding_attempt("--width", &attempt);
    assert!(!other.invalid_arg);
    assert!(other.notes.is_empty());
    let width = analyze_binding_attempt(
        "--width",
        &attempt_from_output("ls: invalid line width: 'x'"),
    );
    assert!(width.invalid_arg);
}

#[test]
fn unattributed_missing_argument_goes_to_tested_option() {
    let attempt = attempt_from_output("tool: missing argument");
    let analysis = analyze_binding_attempt("--size", &attempt);
    assert!(analysis.missing_arg);
    assert!(analysis.argument_error);
    assert_eq!(
        analysis.notes,
        vec![
            "missing argument marker without option attribution; attributed to tested option"
                .to_string()
        ]
    );
}

#[test]
fn missing_argument_for_another_option_is_noted() {
    let attempt = attempt_from_output("option '--other' requires an argument");
    let analysis = analyze_binding_attempt("--size", &attempt);
    assert!(!analysis.missing_arg);
    assert_eq!(
        analysis.notes,
        vec!["missing argument marker for [\"--other\"]".to_string()]
    );
}

#[test]
fn reported_value_is_set_aside_when_matching() {
    let attempt = attempt_from_output("error: unrecognized option '--Color=__bvm__'");
    let (status, note) = classify_attempt("--color", &attempt);
    assert_eq!(status, ValidationStatus::Refuted);
    assert!(note.is_none());
}

#[test]
fn ambiguous_option_is_undetermined() {
    let attempt = attempt_from_output("tool: Option is ambiguous: --co");
    let (status, note) = classify_attempt("--co", &attempt);
    assert_eq!(status, ValidationStatus::Undetermined);
    assert_eq!(note.as_deref(), Some("ambiguous option response (option is ambiguous)"));
    let direct = attempt_from_output("tool: ambiguous option -- co");
    let analysis = analyze_binding_attempt("--co", &direct);
    assert!(analysis.ambiguous);
    assert_eq!(
        analysis.notes,
        vec!["ambiguous option response (ambiguous option)".to_string()]
    );
}

#[test]
fn missing_exit_code_is_undetermined() {
    let attempt = ExecutionAttempt {
        args: Vec::new(),
        exit_code: None,
        stdout: Vec::new(),
        stderr: Vec::new(),
        spawn_error: None,
    };
    let (status, note) = classify_attempt("--all", &attempt);
    assert_eq!(status, ValidationStatus::Undetermined);
    assert_eq!(note.as_deref(), Some("terminated without exit code"));
    let analysis = analyze_binding_attempt("--all", &attempt);
    assert_eq!(analysis.notes, vec!["terminated without exit code".to_string()]);
    assert_eq!(analysis.exit_code, None);
}

#[test]
fn quiet_success_is_confirmed_without_note() {
    let attempt = attempt_with("Usage: tool\n", "", 0);
    let (status, note) = classify_attempt("--all", &attempt);
    assert_eq!(status, ValidationStatus::Confirmed);
    assert!(note.is_none());
    let negative = attempt_with("", "", -3);
    let (status, note) = classify_attempt("--all", &negative);
    assert_eq!(status, ValidationStatus::Confirmed);
    assert_eq!(
        note.as_deref(),
        Some("nonzero exit (-3) without unrecognized option marker")
    );
}

#[test]
fn quiet_probes_follow_the_form_hint() {
    let missing = analyze_binding_attempt("--color", &attempt_from_output_with_code("", 0));
    let invalid = analyze_binding_attempt("--color", &attempt_from_output_with_code("", 0));
    let (status, kind, reason) =
        infer_binding(&missing, &invalid, None, Some(ValueForm::Attached));
    assert_eq!(status, ValidationStatus::Confirmed);
    assert_eq!(kind, Some(BindingKind::Optional));
    assert_eq!(
        reason.as_deref(),
        Some("no argument errors detected with attached value")
    );
    let (status, kind, reason) =
        infer_binding(&missing, &invalid, None, Some(ValueForm::Trailing));
    assert_eq!(status, ValidationStatus::Undetermined);
    assert_eq!(kind, None);
    assert_eq!(
        reason.as_deref(),
        Some("no argument errors detected with trailing value")
    );
}

#[test]
fn option_at_end_probe_confirms_required() {
    let missing = analyze_binding_attempt("-w", &attempt_from_output_with_code("", 1));
    let invalid = analyze_binding_attempt("-w", &attempt_from_output_with_code("", 1));
    let end = analyze_binding_attempt(
        "-w",
        &attempt_from_output("tool: option requires an argument -- 'w'"),
    );
    assert!(end.missing_arg);
    let (status, kind, reason) = infer_binding(&missing, &invalid, Some(&end), None);
    assert_eq!(status, ValidationStatus::Confirmed);
    assert_eq!(kind, Some(BindingKind::Required));
    assert_eq!(
        reason.as_deref(),
        Some("missing argument response observed (option at end probe)")
    );
    let (status, kind, reason) = infer_binding(&missing, &invalid, None, None);
    assert_eq!(status, ValidationStatus::Undetermined);
    assert_eq!(kind, None);
    assert_eq!(reason.as_deref(), Some("insufficient binding evidence"));
}

#[test]
fn unrecognized_and_ambiguous_leave_binding_undetermined() {
    let unrecognized = analyze_binding_attempt(
        "--ghost",
        &attempt_from_output("error: unrecognized option '--ghost'"),
    );
    let quiet = analyze_binding_attempt("--ghost", &attempt_from_output_with_code("", 0));
    let (status, kind, reason) = infer_binding(&quiet, &unrecognized, None, None);
    assert_eq!(status, ValidationStatus::Undetermined);
    assert_eq!(kind, None);
    assert_eq!(reason.as_deref(), Some("unrecognized option response"));
    let ambiguous =
        analyze_binding_attempt("--gh", &attempt_from_output("ambiguous option '--gh'"));
    let (status, _, reason) = infer_binding(&ambiguous, &quiet, None, None);
    assert_eq!(status, ValidationStatus::Undetermined);
    assert_eq!(reason.as_deref(), Some("ambiguous option response"));
}

#[test]
fn claim_ids_name_their_option() {
    assert_eq!(
        option_from_claim_id("claim:option:opt=--all:exists"),
        Some("--all".to_string())
    );
    assert_eq!(option_from_claim_id("claim:option:opt=--all:binding"), None);
    assert_eq!(option_from_claim_id("claim:option:opt=:exists"), None);
    assert_eq!(
        option_from_binding_claim_id("claim:option:opt=--size:binding"),
        Some("--size".to_string())
    );
    assert_eq!(option_from_binding_claim_id("claim:option:opt=--size:exists"), None);
    assert_eq!(option_from_binding_claim_id("option:opt=--size:binding"), None);
}

#[test]
fn validation_env_is_the_contract() {
    let env = validation_env();
    assert_eq!(env.locale, "C");
    assert_eq!(env.tz, "UTC");
    assert_eq!(env.term, "dumb");
}

#[test]
fn binding_expectation_is_read_off_the_claim() {
    assert_eq!(
        parse_binding_expectation("Option --size Requires A Value.", ""),
        Some(BindingExpectation::Required)
    );
    assert_eq!(
        parse_binding_expectation("takes an optional value", "--size=SIZE"),
        Some(BindingExpectation::Optional)
    );
    assert_eq!(
        parse_binding_expectation("", "--color[=WHEN]"),
        Some(BindingExpectation::Optional)
    );
    assert_eq!(
        parse_binding_expectation("", "--size=SIZE"),
        Some(BindingExpectation::Required)
    );
    assert_eq!(parse_binding_expectation("nothing", "--all"), None);
}

#[test]
fn form_text_stands_between_backticks() {
    assert_eq!(
        extract_form_text("Option --size requires a value in `--size=SIZE` form."),
        Some("--size=SIZE".to_string())
    );
    assert_eq!(extract_form_text("no form"), None);
    assert_eq!(extract_form_text("open `only"), None);
    assert_eq!(extract_form_text("``"), Some(String::new()));
}

#[test]
fn with_arg_args_follow_the_form() {
    assert_eq!(
        build_with_arg_args(Some("--color[=WHEN]"), "--color"),
        vec!["--color=__bvm__".to_string()]
    );
    assert_eq!(
        build_with_arg_args(Some("--size=SIZE"), "--size"),
        vec!["--size=__bvm__".to_string()]
    );
    assert_eq!(
        build_with_arg_args(Some("-s SIZE"), "-s"),
        vec!["-s".to_string(), "__bvm__".to_string()]
    );
    assert_eq!(
        build_with_arg_args(None, "--size"),
        vec!["--size=__bvm__".to_string()]
    );
    assert_eq!(
        missing_arg_args("--size"),
        vec!["--size".to_string(), "--help".to_string()]
    );
}

#[test]
fn existence_claim_keeps_hashes_of_the_output() {
    let env = validation_env();
    let mut attempt = attempt_from_output("error: unrecognized option '--nope'");
    attempt.args = vec!["--nope".to_string(), "--help".to_string()];
    let result =
        validate_option_existence("claim:option:opt=--nope:exists", "--nope", &env, attempt);
    assert_eq!(result.claim_id, "claim:option:opt=--nope:exists");
    assert_eq!(result.status, ValidationStatus::Refuted);
    assert_eq!(result.attempts.len(), 1);
    let evidence = &result.attempts[0];
    assert_eq!(evidence.args, vec!["--nope".to_string(), "--help".to_string()]);
    assert_eq!(evidence.exit_code, Some(2));
    assert_eq!(
        evidence.stdout.as_deref(),
        Some("blake3:af1349b9f5f9a1a6a0404dea36dcc9499bcb25c9adc112b7cc9a93cae41f3262")
    );
    let stderr = evidence.stderr.clone().expect("stderr hash");
    assert!(stderr.starts_with("blake3:"));
    assert_eq!(stderr.len(), 7 + 64);
    assert_ne!(evidence.stdout, evidence.stderr);
    assert_eq!(evidence.notes, None);
    let names: Vec<&str> = evidence.env.iter().map(|var| var.name.as_str()).collect();
    assert_eq!(names, vec!["LC_ALL", "PATH", "TERM", "TZ"]);
    let values: Vec<&str> = evidence.env.iter().map(|var| var.value.as_str()).collect();
    assert_eq!(values, vec!["C", "/bin:/usr/bin", "dumb", "UTC"]);
}

#[test]
fn binding_claim_is_held_against_two_probes() {
    let env = validation_env();
    let claim = Claim {
        id: "claim:option:opt=--size:binding".to_string(),
        text: "Option --size requires a value in `--size=SIZE` form.".to_string(),
        raw_excerpt: "--size=SIZE".to_string(),
    };
    let missing = attempt_from_output("option '--size' requires an argument");
    let with_arg = attempt_from_output_with_code("", 0);
    let result = validate_option_binding(&claim, &env, missing, with_arg);
    assert_eq!(result.status, ValidationStatus::Confirmed);
    assert_eq!(result.reason.as_deref(), Some("missing argument response observed"));
    assert_eq!(result.attempts.len(), 2);
    assert_eq!(result.attempts[0].notes.as_deref(), Some("probe=missing_arg"));
    assert_eq!(result.attempts[1].notes.as_deref(), Some("probe=with_arg"));

    let unknown = Claim {
        id: "claim:option:opt=--size:exists".to_string(),
        text: String::new(),
        raw_excerpt: String::new(),
    };
    let result = validate_option_binding(
        &unknown,
        &env,
        attempt_from_output(""),
        attempt_from_output(""),
    );
    assert_eq!(result.status, ValidationStatus::Undetermined);
    assert_eq!(result.reason.as_deref(), Some("unrecognized parameter binding claim"));
    assert!(result.attempts.is_empty());

    let vague = Claim {
        id: "claim:option:opt=--size:binding".to_string(),
        text: "Option --size.".to_string(),
        raw_excerpt: "--size".to_string(),
    };
    let result = validate_option_binding(
        &vague,
        &env,
        attempt_from_output("other: unrecognized option '--x'"),
        attempt_from_output(""),
    );
    assert_eq!(result.status, ValidationStatus::Undetermined);
    assert_eq!(result.reason.as_deref(), Some("parameter binding expectation missing"));
    assert_eq!(
        result.attempts[0].notes.as_deref(),
        Some("probe=missing_arg; unrecognized option marker (unrecognized option) for [\"--x\"]")
    );
}
