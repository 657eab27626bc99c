use binary_man::digest::{hash_bytes, hash_text};
use binary_man::render::{first_nonempty_line, render_markdown};
use binary_man::report::{
    assemble_report, cache_key, needs_help_fallback, pick_help, plan_request, probe_budget,
    select_help_text, SurfaceError,
};
use binary_man::schema::{
    capture_from, compute_binary_identity_with_env, BindingKind, BindingResult, CaptureOutput,
    OptionSurface, SelfReport, TierResult, TierStatus, Timings, ValidationStatus,
};
use binary_man::validate::validation_env;

fn capture(stdout: &str, stderr: &str) -> CaptureOutput {
    CaptureOutput {
        args: vec!["--help".to_string()],
        exit_code: Some(0),
        stdout: stdout.to_string(),
        stderr: stderr.to_string(),
    }
}

fn self_report(help: CaptureOutput) -> SelfReport {
    SelfReport {
        help,
        version: capture("\n  tool 1.2  \nmore\n", ""),
        usage_error: capture("", "unknown"),
    }
}

#[test]
fn help_text_prefers_stdout() {
    assert_eq!(select_help_text(&capture("out", "err")), Some("out"));
    assert_eq!(select_help_text(&capture(" \n", "err")), Some("err"));
    assert_eq!(select_help_text(&capture("", "\t")), None);
    assert!(needs_help_fallback(&capture("", "")));
    assert!(!needs_help_fallback(&capture("", "usage")));
    let picked = pick_help(capture("", ""), capture("short help", ""));
    assert_eq!(picked.stdout, "short help");
    let picked = pick_help(capture("", " "), capture("", ""));
    assert_eq!(picked.stderr, " ");
}

#[test]
fn captures_are_decoded_leniently() {
    let cap = capture_from(vec!["--version".to_string()], Some(1), b"ok\xff", b"");
    assert_eq!(cap.stdout, "ok\u{fffd}");
    assert_eq!(cap.stderr, "");
    assert_eq!(cap.exit_code, Some(1));
    assert_eq!(cap.args, vec!["--version"]);
}

#[test]
fn cache_key_depends_on_its_inputs_alone() {
    let a = compute_binary_identity_with_env("/bin/ls", b"bytes", "linux", "x86_64", validation_env());
    let b = compute_binary_identity_with_env("/other/ls", b"bytes", "linux", "x86_64", validation_env());
    assert_eq!(a.hash.algo, "blake3");
    assert_eq!(a.hash.value, b.hash.value);
    assert_eq!(a.hash.value.len(), 64);
    assert_eq!(a.path, "/bin/ls");
    let key = cache_key(&a, "stub-v1", "v1");
    assert_eq!(key, cache_key(&a, "stub-v1", "v1"));
    assert_eq!(key, cache_key(&b, "stub-v1", "v1"));
    assert_ne!(key, cache_key(&a, "stub-v2", "v1"));
    assert_ne!(key, cache_key(&a, "stub-v1", "v2"));
    let c = compute_binary_identity_with_env("/bin/ls", b"other", "linux", "x86_64", validation_env());
    assert_ne!(key, cache_key(&c, "stub-v1", "v1"));
    let material = format!(
        "hash={};os=linux;arch=x86_64;lc_all=C;tz=UTC;term=dumb;planner=stub-v1;probe_lib=v1",
        a.hash.value
    );
    assert_eq!(key, hash_text(&material));
    assert_eq!(key.len(), 64);
}

#[test]
fn hashes_are_blake3_in_hex() {
    assert_eq!(
        hash_text(""),
        "af1349b9f5f9a1a6a0404dea36dcc9499bcb25c9adc112b7cc9a93cae41f3262"
    );
    assert_eq!(
        hash_bytes(b""),
        "blake3:af1349b9f5f9a1a6a0404dea36dcc9499bcb25c9adc112b7cc9a93cae41f3262"
    );
    assert_ne!(hash_text("a"), hash_text(""));
}

#[test]
fn budget_defaults_to_every_probe_of_every_option() {
    let budget = probe_budget(7, 3, None);
    assert_eq!(budget.max_total, 21);
    assert_eq!(budget.max_per_option, 3);
    assert_eq!(probe_budget(7, 3, Some(5)).max_total, 5);
    assert_eq!(probe_budget(usize::MAX, 2, None).max_total, usize::MAX);
    assert_eq!(probe_budget(0, 3, None).max_total, 0);
}

#[test]
fn request_lists_the_options_of_the_help_text() {
    let report = self_report(capture("  -a, --all  all\n  --color[=WHEN]  color\n", ""));
    let (options, request) = plan_request(&report, 3, None).expect("request");
    assert_eq!(options.len(), 3);
    assert_eq!(request.options, vec!["-a", "--all", "--color"]);
    assert_eq!(request.budget.max_total, 9);
    assert_eq!(request.budget.max_per_option, 3);
    assert!(request.stop_rules.stop_on_unrecognized);
    assert!(request.stop_rules.stop_on_binding_confirmed);
    assert_eq!(request.probe_library.version, "v1");
    assert_eq!(request.probe_library.probes.len(), 3);
    assert_eq!(request.self_report.help.stdout, report.help.stdout);
    let (_, request) = plan_request(&report, 2, Some(4)).expect("request");
    assert_eq!(request.budget.max_total, 4);
    assert_eq!(request.budget.max_per_option, 2);
}

#[test]
fn request_needs_help_text_with_options() {
    let mut silent = capture("", " ");
    silent.exit_code = Some(2);
    let err = plan_request(&self_report(silent), 3, None).expect_err("no help");
    assert_eq!(err, SurfaceError::HelpUnavailable { exit_code: Some(2) });
    let err = plan_request(&self_report(capture("Usage: tool FILE\n", "")), 3, None)
        .expect_err("no options");
    assert_eq!(err, SurfaceError::NoOptions);
}

#[test]
fn first_line_skips_blank_lines() {
    assert_eq!(
        first_nonempty_line(&capture("\n  tool 1.2  \r\nmore\n", "")),
        Some("tool 1.2".to_string())
    );
    assert_eq!(
        first_nonempty_line(&capture(" \n", "from stderr")),
        Some("from stderr".to_string())
    );
    assert_eq!(first_nonempty_line(&capture("", "\n\n")), None);
}

#[test]
fn report_is_rendered_line_by_line() {
    let identity =
        compute_binary_identity_with_env("/usr/bin/tool", b"", "linux", "x86_64", validation_env());
    let options = vec![
        OptionSurface {
            option: "--all".to_string(),
            existence: TierResult {
                status: ValidationStatus::Confirmed,
                reason: None,
                evidence: Vec::new(),
            },
            binding: BindingResult {
                status: ValidationStatus::Confirmed,
                kind: Some(BindingKind::NoValue),
                reason: Some("argument not allowed response observed".to_string()),
                evidence: Vec::new(),
            },
        },
        OptionSurface {
            option: "--nope".to_string(),
            existence: TierResult {
                status: ValidationStatus::Refuted,
                reason: Some("why".to_string()),
                evidence: Vec::new(),
            },
            binding: BindingResult {
                status: ValidationStatus::Undetermined,
                kind: None,
                reason: None,
                evidence: Vec::new(),
            },
        },
    ];
    let report = assemble_report(
        "tool".to_string(),
        identity,
        "stub-v1".to_string(),
        "abc".to_string(),
        Timings {
            planner_ms: 1,
            probes_ms: 2,
            total_ms: 3,
        },
        self_report(capture("  --all  all\n", "")),
        options,
    );
    assert_eq!(report.probe_library_version, "v1");
    assert_eq!(report.planner.version, "stub-v1");
    assert_eq!(report.planner.plan_hash, "abc");
    assert_eq!(report.higher_tiers.t2, TierStatus::NotEvaluated);
    assert_eq!(report.higher_tiers.t3, TierStatus::NotEvaluated);
    assert_eq!(report.higher_tiers.t4, TierStatus::NotEvaluated);
    let expected = "# tool surface\n\
\n\
## Binary Identity\n\
- Invoked Path: tool\n\
- Resolved Path: /usr/bin/tool\n\
- Hash: blake3:af1349b9f5f9a1a6a0404dea36dcc9499bcb25c9adc112b7cc9a93cae41f3262\n\
- Platform: linux/x86_64\n\
- Environment: LC_ALL=C TZ=UTC TERM=dumb\n\
- Version: tool 1.2\n\
\n\
## T0 Option Existence\n\
- --all (confirmed)\n\
- --nope (refuted) \u{2014} why\n\
\n\
## T1 Parameter Binding\n\
- --all (no_value, confirmed) \u{2014} argument not allowed response observed\n\
- --nope (undetermined)\n\
\n\
## Higher Tiers\n\
- T2 parameter form: not evaluated\n\
- T3 parameter domain/type: not evaluated\n\
- T4 behavior semantics: not evaluated\n";
    assert_eq!(render_markdown(&report, "tool"), expected);
}
