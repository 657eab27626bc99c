use binary_man::attribution::{
    clean_option_token, extract_argument_not_allowed_options, extract_invalid_argument_options,
    extract_missing_argument_options, extract_reported_options, push_cleaned, push_dashed,
};
use binary_man::markers::{contains_any, find_marker, AMBIGUOUS_MARKERS, UNRECOGNIZED_MARKERS};
use binary_man::pattern::{captures, texts_of};
use binary_man::signals::{
    analysis_from_findings, matches_lowered, option_matches, Attribution, Findings,
};
use binary_man::text::{
    chars_of, contains_in, find_in, has_prefix, has_suffix, join_texts, push_decimal, trim,
};
use binary_man::validate::classify_findings;
use binary_man::schema::ValidationStatus;

fn chars(s: &str) -> Vec<char> {
    s.chars().collect()
}

#[test]
fn trims_unicode_white_space() {
    let text = chars("\u{a0}\t --all \u{3000}\r\n");
    let kept: String = trim(&text).iter().collect();
    assert_eq!(kept, "--all");
    assert!(trim(&chars(" \n")).is_empty());
    assert_eq!(chars_of("h\u{e9}"), vec!['h', '\u{e9}']);
}

#[test]
fn finds_the_first_occurrence() {
    let hay = chars("abcabc");
    assert_eq!(find_in(&hay, &chars("bc")), Some(1));
    assert_eq!(find_in(&hay, &chars("")), Some(0));
    assert_eq!(find_in(&hay, &chars("cb")), None);
    assert_eq!(find_in(&chars("ab"), &chars("abc")), None);
    assert!(contains_in(&hay, &chars("cab")));
    assert!(has_prefix(&hay, &chars("abc")));
    assert!(!has_prefix(&hay, &chars("bc")));
    assert!(has_suffix(&hay, &chars("bc")));
    assert!(!has_suffix(&chars("c"), &chars("bc")));
}

#[test]
fn writes_integers_in_decimal() {
    for n in [0, 7, 10, 42, 1000, -1, -120, i32::MAX, i32::MIN] {
        let mut out = Vec::new();
        push_decimal(n, &mut out);
        let text: String = out.iter().collect();
        assert_eq!(text, n.to_string());
    }
}

#[test]
fn joins_with_a_separator() {
    assert_eq!(join_texts(&Vec::new(), "; "), "");
    assert_eq!(join_texts(&vec!["a".to_string()], "; "), "a");
    assert_eq!(
        join_texts(&vec!["a".to_string(), "b".to_string(), "c".to_string()], "; "),
        "a; b; c"
    );
}

#[test]
fn markers_are_found_in_table_order() {
    let output = chars("tool: unknown option and invalid option");
    assert_eq!(
        find_marker(&output, &UNRECOGNIZED_MARKERS),
        Some("unknown option")
    );
    assert_eq!(find_marker(&output, &AMBIGUOUS_MARKERS), None);
    assert!(contains_any(&output, &UNRECOGNIZED_MARKERS));
    assert!(!contains_any(&chars("Unknown Option"), &UNRECOGNIZED_MARKERS));
}

#[test]
fn captures_take_the_first_group() {
    assert_eq!(captures("a(b+)", "ab abb a"), vec!["b", "bb"]);
    assert_eq!(captures("a(b)?", "a ab"), vec!["", "b"]);
    assert!(captures("a(b", "ab").is_empty());
    assert_eq!(
        texts_of(Some(vec![Some("x".to_string()), None])),
        vec!["x".to_string(), String::new()]
    );
    assert!(texts_of(None).is_empty());
}

#[test]
fn reported_tokens_are_cleaned() {
    let cleaned: String = clean_option_token(&chars("(--all),")).iter().collect();
    assert_eq!(cleaned, "--all");
    assert!(clean_option_token(&chars(".;:")).is_empty());
    let mut out = vec!["kept".to_string()];
    push_cleaned(
        &vec![
            "--all,".to_string(),
            "-".to_string(),
            "--".to_string(),
            "".to_string(),
            "(x)".to_string(),
        ],
        &mut out,
    );
    assert_eq!(out, vec!["kept", "--all", "x"]);
    push_dashed(&vec!["i".to_string(), "".to_string()], &mut out);
    assert_eq!(out, vec!["kept", "--all", "x", "-i"]);
}

#[test]
fn diagnostics_name_their_options() {
    assert_eq!(
        extract_reported_options("tool: Unknown flag: --x; invalid option -- 'q'"),
        vec!["--x", "-q"]
    );
    assert_eq!(
        extract_missing_argument_options(
            "option '--size' requires an argument\nmissing value for --w\n\
requires a value for `--k`\noption requires an argument -- 's'"
        ),
        vec!["--size", "--w", "--k", "-s"]
    );
    assert_eq!(
        extract_argument_not_allowed_options(
            "option `--all' doesn't allow an argument\noption --b takes no value\n\
value not allowed for --c"
        ),
        vec!["--all", "--b", "--c"]
    );
    assert_eq!(
        extract_invalid_argument_options("invalid value \"x y\" for '--color'"),
        vec!["--color"]
    );
    assert!(extract_invalid_argument_options("invalid tab size").is_empty());
}

#[test]
fn reported_tokens_match_the_tested_option() {
    assert!(option_matches("--ALL", "--all"));
    assert!(option_matches("--color=always", "--color"));
    assert!(!option_matches("--color", "--color=always"));
    assert!(option_matches("i", "-i"));
    assert!(option_matches("I", "-i"));
    assert!(!option_matches("i", "--i"));
    assert!(!option_matches("--al", "--all"));
    assert!(matches_lowered(&chars("-w"), &chars("-w")));
    assert!(!matches_lowered(&chars("-W"), &chars("-w")));
}

fn nothing() -> Attribution {
    Attribution {
        found: false,
        matched: false,
        listing: "[]".to_string(),
    }
}

#[test]
fn analysis_follows_the_findings() {
    let findings = Findings {
        lower: "usage: tool\nunknown option --x\nvalue not allowed\ninvalid value\noption is ambiguous"
            .to_string(),
        tested_lower: "--y".to_string(),
        unrecognized: Attribution {
            found: true,
            matched: false,
            listing: "[\"--x\"]".to_string(),
        },
        missing: nothing(),
        not_allowed: nothing(),
        invalid: Attribution {
            found: true,
            matched: true,
            listing: "[\"--y\"]".to_string(),
        },
    };
    let analysis = analysis_from_findings(&None, Some(1), &findings);
    assert!(!analysis.unrecognized);
    assert!(!analysis.missing_arg);
    assert!(!analysis.arg_not_allowed);
    assert!(analysis.invalid_arg);
    assert!(analysis.ambiguous);
    assert!(analysis.help_like);
    assert!(!analysis.argument_error);
    assert_eq!(analysis.exit_code, Some(1));
    assert_eq!(
        analysis.notes,
        vec![
            "unrecognized option marker (unknown option) for [\"--x\"]",
            "argument not allowed marker without option attribution",
            "ambiguous option response (option is ambiguous)",
        ]
    );
    let (status, note) = classify_findings(&None, Some(1), &findings);
    assert_eq!(status, ValidationStatus::Undetermined);
    assert_eq!(
        note.as_deref(),
        Some("unrecognized option marker (unknown option) for [\"--x\"]")
    );
    let mut unmarked = findings.clone();
    unmarked.lower = "invalid  value 'x' for --y".to_string();
    let analysis = analysis_from_findings(&None, Some(1), &unmarked);
    assert!(!analysis.invalid_arg);
    assert!(analysis.notes.is_empty());
    let failed = analysis_from_findings(&Some("no such file".to_string()), None, &findings);
    assert!(!failed.invalid_arg && !failed.ambiguous && !failed.help_like);
    assert_eq!(failed.notes, vec!["spawn failed: no such file"]);
}
