use binary_man::binary::{input_kind, InputError, InputKind};
use binary_man::evidence::{run_id, sanitize_label, EVIDENCE_DIR, TOOL_VERSION};
use binary_man::fixture::{
    check_applied_kind, check_catalog_entry, fixture_failure, fixture_presence, fixture_root,
    manifest_entries, parse_mode, path_components, same_path, scan_kind, validate_manifest,
    verify_fixture_tree, CatalogError, EntryKind, FixtureCatalogEntry, FixtureEntry,
    FixtureManifest, FixtureOnDisk, FixtureStep, ManifestError, ScanError, TreeEntry, TreeError,
};
use binary_man::paths::{join_path, normalize_exec_path, validate_relative_path, PathError};
use binary_man::prompt::{
    build_prompt, configured_command, help_capture, help_limits, lm_invocation,
    needs_short_help, EmptyCommand,
    HelpTimedOut, LmCommand,
};
use binary_man::runner::run_result;
use binary_man::transcript::Transcript;

fn file(path: &str) -> FixtureEntry {
    FixtureEntry {
        path: path.to_string(),
        entry_type: "file".to_string(),
        mode: "644".to_string(),
        size: Some(3),
        sha256: Some("abc".to_string()),
        mtime: 10,
    }
}

fn dir(path: &str) -> FixtureEntry {
    FixtureEntry {
        path: path.to_string(),
        entry_type: "dir".to_string(),
        mode: "0755".to_string(),
        size: None,
        sha256: None,
        mtime: 10,
    }
}

fn manifest(entries: Vec<FixtureEntry>) -> FixtureManifest {
    FixtureManifest {
        version: 1,
        description: "a fixture".to_string(),
        entries,
    }
}

fn on_disk(path: &str, kind: EntryKind) -> TreeEntry {
    TreeEntry {
        path: path.to_string(),
        kind,
        size: 3,
        sha256: "abc".to_string(),
        mode: if kind == EntryKind::File {
            0o100644
        } else {
            0o40755
        },
        mtime: 10,
    }
}

#[test]
fn relative_paths_are_clean() {
    assert_eq!(validate_relative_path("a/b"), Ok(()));
    assert_eq!(validate_relative_path("a/./b//c/"), Ok(()));
    assert_eq!(validate_relative_path("..."), Ok(()));
    assert_eq!(validate_relative_path("a..b/.c"), Ok(()));
    assert_eq!(validate_relative_path(" \t"), Err(PathError::Empty));
    assert_eq!(validate_relative_path(""), Err(PathError::Empty));
    assert_eq!(validate_relative_path("/a"), Err(PathError::Absolute));
    assert_eq!(validate_relative_path("."), Err(PathError::InvalidComponent));
    assert_eq!(validate_relative_path("./a"), Err(PathError::InvalidComponent));
    assert_eq!(validate_relative_path(".."), Err(PathError::InvalidComponent));
    assert_eq!(validate_relative_path("a/../b"), Err(PathError::InvalidComponent));
    assert_eq!(validate_relative_path("a/.."), Err(PathError::InvalidComponent));
    for value in ["a/b", "a/./b//c/", "...", ".", "./a", "..", "a/../b", "a/.."] {
        let by_std = std::path::Path::new(value)
            .components()
            .all(|c| matches!(c, std::path::Component::Normal(_)));
        assert_eq!(validate_relative_path(value).is_ok(), by_std, "{}", value);
    }
    assert_eq!(PathError::Empty.message(), "value is empty");
    assert_eq!(PathError::Absolute.message(), "path must be relative");
    assert_eq!(
        PathError::InvalidComponent.message(),
        "path contains invalid component"
    );
}

#[test]
fn paths_join_with_one_separator() {
    assert_eq!(join_path("/root", "a/b"), "/root/a/b");
    assert_eq!(join_path("/root/", "a"), "/root/a");
    assert_eq!(join_path("", "a"), "a");
    for (base, path) in [("/root", "a/b"), ("/root/", "a"), ("", "a"), ("x", "")] {
        assert_eq!(
            join_path(base, path),
            std::path::Path::new(base).join(path).to_string_lossy()
        );
    }
    assert_eq!(normalize_exec_path("/bin/ls", "/work"), "/bin/ls");
    assert_eq!(normalize_exec_path("bin/ls", "/work"), "/work/bin/ls");
    assert_eq!(fixture_root("/fixtures", "basic"), Ok("/fixtures/basic".to_string()));
    assert_eq!(fixture_root("/fixtures", "../x"), Err(PathError::InvalidComponent));
}

#[test]
fn paths_compare_by_component() {
    let parts: Vec<String> = path_components("a//b/./c/")
        .into_iter()
        .map(|p| p.into_iter().collect())
        .collect();
    assert_eq!(parts, vec!["a", "b", "c"]);
    assert!(same_path("a/b", "a//b/"));
    assert!(same_path("a/./b", "a/b"));
    assert!(!same_path("./a", "a"));
    assert!(!same_path("a/b", "a/c"));
    assert!(!same_path("a", "a/b"));
    for (a, b) in [("a/b", "a//b/"), ("a/./b", "a/b"), ("./a", "a"), ("a", "a/b")] {
        assert_eq!(
            same_path(a, b),
            std::path::Path::new(a) == std::path::Path::new(b)
        );
    }
}

#[test]
fn modes_are_octal() {
    assert_eq!(parse_mode("644"), Some(0o644));
    assert_eq!(parse_mode("0755"), Some(0o755));
    assert_eq!(parse_mode("+7"), Some(7));
    assert_eq!(parse_mode("0"), Some(0));
    assert_eq!(parse_mode("37777777777"), Some(u32::MAX));
    assert_eq!(parse_mode("40000000000"), None);
    assert_eq!(parse_mode("0000000000000000000000007"), Some(7));
    assert_eq!(parse_mode(""), None);
    assert_eq!(parse_mode("+"), None);
    assert_eq!(parse_mode("-7"), None);
    assert_eq!(parse_mode("8"), None);
    assert_eq!(parse_mode("7 "), None);
    for value in ["644", "+7", "", "+", "-7", "8", "37777777777", "40000000000", "++1"] {
        assert_eq!(parse_mode(value), u32::from_str_radix(value, 8).ok());
    }
}

#[test]
fn manifests_are_held_to_the_format() {
    assert!(validate_manifest(&manifest(vec![dir("d"), file("d/f")])).is_ok());
    let mut old = manifest(Vec::new());
    old.version = 2;
    let err = validate_manifest(&old).expect_err("version");
    assert!(matches!(err, ManifestError::UnsupportedVersion(2)));
    assert_eq!(err.message(), "unsupported manifest version 2");
    let err = validate_manifest(&manifest(vec![file("/f")])).expect_err("path");
    assert!(matches!(err, ManifestError::InvalidPath(PathError::Absolute)));
    assert_eq!(err.message(), "path must be relative");
    let err = validate_manifest(&manifest(vec![file("f"), file("f")])).expect_err("twice");
    assert!(matches!(&err, ManifestError::DuplicateEntry(p) if p == "f"));
    assert_eq!(err.message(), "duplicate manifest entry f");
    let mut link = file("l");
    link.entry_type = "symlink".to_string();
    let err = validate_manifest(&manifest(vec![link])).expect_err("symlink");
    assert!(matches!(err, ManifestError::SymlinkUnsupported));
    assert_eq!(err.message(), "symlink entries are not supported");
    let mut odd = file("o");
    odd.entry_type = "fifo".to_string();
    let err = validate_manifest(&manifest(vec![odd])).expect_err("type");
    assert!(matches!(&err, ManifestError::UnsupportedType(t) if t == "fifo"));
    assert_eq!(err.message(), "unsupported entry type fifo");
    let mut bad_mode = file("m");
    bad_mode.mode = "rw-".to_string();
    let err = validate_manifest(&manifest(vec![bad_mode])).expect_err("mode");
    assert!(matches!(&err, ManifestError::InvalidMode(m) if m == "rw-"));
    assert_eq!(err.message(), "invalid mode rw-");
    let mut early = file("e");
    early.mtime = -1;
    let err = validate_manifest(&manifest(vec![early])).expect_err("mtime");
    assert!(matches!(err, ManifestError::NegativeMtime));
    assert_eq!(err.message(), "mtime must be >= 0");
    let mut bare = file("b");
    bare.sha256 = None;
    let err = validate_manifest(&manifest(vec![bare])).expect_err("file fields");
    assert!(matches!(err, ManifestError::FileMissingFields));
    assert_eq!(err.message(), "file entry missing size or sha256");
    let mut sized = dir("s");
    sized.size = Some(1);
    let err = validate_manifest(&manifest(vec![sized])).expect_err("dir fields");
    assert!(matches!(err, ManifestError::DirHasFields));
    assert_eq!(err.message(), "dir entry must not include size or sha256");
}

#[test]
fn manifest_entries_name_their_kinds() {
    assert_eq!(
        manifest_entries(&manifest(vec![dir("d"), file("d/f")])),
        Some(vec![EntryKind::Dir, EntryKind::File])
    );
    let mut odd = file("o");
    odd.entry_type = "symlink".to_string();
    assert_eq!(manifest_entries(&manifest(vec![dir("d"), odd])), None);
    assert_eq!(manifest_entries(&manifest(Vec::new())), Some(Vec::new()));
}

#[test]
fn trees_are_held_against_their_manifest() {
    let m = manifest(vec![dir("d"), file("d/f")]);
    let tree = vec![on_disk("d/f", EntryKind::File), on_disk("d", EntryKind::Dir)];
    assert!(verify_fixture_tree(&m, &tree, false).is_ok());
    assert!(verify_fixture_tree(&m, &tree, true).is_ok());

    let err = verify_fixture_tree(&m, &tree[1..].to_vec(), false).expect_err("missing");
    assert!(matches!(&err, TreeError::Missing(p) if p == "d/f"));
    assert_eq!(err.message(), "missing entry d/f");

    let swapped = vec![on_disk("d/f", EntryKind::Dir), on_disk("d", EntryKind::Dir)];
    let err = verify_fixture_tree(&m, &swapped, false).expect_err("kind");
    assert!(matches!(&err, TreeError::TypeMismatch(p) if p == "d/f"));
    assert_eq!(err.message(), "entry type mismatch d/f");

    let mut more = tree.clone();
    more.push(on_disk("extra", EntryKind::File));
    let err = verify_fixture_tree(&m, &more, false).expect_err("unexpected");
    assert!(matches!(&err, TreeError::Unexpected(p) if p == "extra"));
    assert_eq!(err.message(), "unexpected entry extra");

    let mut grown = tree.clone();
    grown[0].size = 4;
    let err = verify_fixture_tree(&m, &grown, false).expect_err("size");
    assert!(matches!(&err, TreeError::SizeMismatch(p) if p == "d/f"));
    assert_eq!(err.message(), "size mismatch for d/f");

    let mut changed = tree.clone();
    changed[0].sha256 = "abd".to_string();
    let err = verify_fixture_tree(&m, &changed, false).expect_err("hash");
    assert!(matches!(&err, TreeError::HashMismatch(p) if p == "d/f"));
    assert_eq!(err.message(), "sha256 mismatch for d/f");

    let mut open = tree.clone();
    open[1].mode = 0o40777;
    assert!(verify_fixture_tree(&m, &open, false).is_ok());
    let err = verify_fixture_tree(&m, &open, true).expect_err("mode");
    assert!(matches!(&err, TreeError::ModeMismatch(p) if p == "d"));
    assert_eq!(err.message(), "mode mismatch for d");

    let mut touched = tree.clone();
    touched[0].mtime = 11;
    let err = verify_fixture_tree(&m, &touched, true).expect_err("mtime");
    assert!(matches!(&err, TreeError::MtimeMismatch(p) if p == "d/f"));
    assert_eq!(err.message(), "mtime mismatch for d/f");

    let mut odd = file("o");
    odd.entry_type = "fifo".to_string();
    let err = verify_fixture_tree(&manifest(vec![odd]), &tree, false).expect_err("type");
    assert!(matches!(err, TreeError::UnsupportedType));
    assert_eq!(err.message(), "unsupported manifest entry type");

    let mut bad_mode = dir("d");
    bad_mode.mode = "x".to_string();
    let err = verify_fixture_tree(&manifest(vec![bad_mode]), &tree[1..].to_vec(), true)
        .expect_err("invalid mode");
    assert!(matches!(&err, TreeError::InvalidMode(m) if m == "x"));
    assert_eq!(err.message(), "invalid mode x");
}

#[test]
fn walks_refuse_links() {
    assert_eq!(scan_kind(true, false, true), Err(ScanError::Symlink));
    assert_eq!(scan_kind(false, true, false), Ok(EntryKind::Dir));
    assert_eq!(scan_kind(false, false, true), Ok(EntryKind::File));
    assert_eq!(scan_kind(false, false, false), Err(ScanError::Unsupported));
    assert_eq!(check_applied_kind(&file("f"), true, false), Ok(()));
    assert_eq!(check_applied_kind(&file("f"), false, true), Err(EntryKind::File));
    assert_eq!(check_applied_kind(&dir("d"), true, false), Err(EntryKind::Dir));
    assert_eq!(check_applied_kind(&dir("d"), false, true), Ok(()));
}

#[test]
fn catalog_entries_are_checked_one_by_one() {
    let there = FixtureOnDisk {
        is_dir: true,
        has_manifest: true,
        has_tree: true,
    };
    let entry = FixtureCatalogEntry {
        id: "basic".to_string(),
        description: "a basic fixture".to_string(),
    };
    let seen = vec!["other".to_string()];
    assert!(check_catalog_entry(&entry, &seen, there).is_ok());
    let err = check_catalog_entry(&entry, &vec!["basic".to_string()], there).expect_err("twice");
    assert!(matches!(&err, CatalogError::Duplicate(id) if id == "basic"));
    let blank = FixtureCatalogEntry {
        id: "basic".to_string(),
        description: " ".to_string(),
    };
    let err = check_catalog_entry(&blank, &seen, there).expect_err("description");
    assert!(matches!(&err, CatalogError::MissingDescription(id) if id == "basic"));
    let rooted = FixtureCatalogEntry {
        id: "/basic".to_string(),
        description: "x".to_string(),
    };
    let err = check_catalog_entry(&rooted, &seen, there).expect_err("id");
    assert!(matches!(err, CatalogError::InvalidId(PathError::Absolute)));
    let gone = FixtureOnDisk {
        is_dir: false,
        has_manifest: true,
        has_tree: true,
    };
    let err = check_catalog_entry(&entry, &seen, gone).expect_err("not on disk");
    assert!(matches!(&err, CatalogError::NotOnDisk(id) if id == "basic"));
    let partial = FixtureOnDisk {
        is_dir: true,
        has_manifest: true,
        has_tree: false,
    };
    let err = check_catalog_entry(&entry, &seen, partial).expect_err("incomplete");
    assert!(matches!(&err, CatalogError::Incomplete(id) if id == "basic"));
}

#[test]
fn fixture_failures_say_which_step_failed() {
    let error = fixture_failure(FixtureStep::CopyTree, "disk full".to_string());
    assert_eq!(error.message, "failed to copy fixture tree");
    assert_eq!(error.details, vec!["disk full"]);
    assert!(!error.is_missing);
    assert_eq!(
        fixture_failure(FixtureStep::LoadManifest, String::new()).message,
        "fixture manifest invalid"
    );
    assert_eq!(
        fixture_failure(FixtureStep::VerifyMaterialized, String::new()).message,
        "fixture materialization failed verification"
    );
    assert!(fixture_presence("/f/basic", true, true, true).is_ok());
    let error = fixture_presence("/f/basic", false, true, true).expect_err("no directory");
    assert_eq!(error.message, "fixture not found: /f/basic");
    assert!(error.is_missing && error.details.is_empty());
    let error = fixture_presence("/f/basic", true, false, true).expect_err("no manifest");
    assert_eq!(error.message, "fixture missing manifest or tree");
    assert!(error.is_missing);
}

#[test]
fn labels_are_sanitized() {
    assert_eq!(sanitize_label("My Label"), "my_label");
    assert_eq!(sanitize_label("a  b__c--d"), "a_b_c--d");
    assert_eq!(sanitize_label("__x__"), "_x");
    assert_eq!(sanitize_label("!!!"), "run");
    assert_eq!(sanitize_label(""), "run");
    assert_eq!(sanitize_label("\u{e9}t\u{e9}"), "_t");
    let long = "A".repeat(40);
    assert_eq!(sanitize_label(&long), "a".repeat(32));
    let edge = format!("{}!b", "a".repeat(31));
    assert_eq!(sanitize_label(&edge), "a".repeat(31));
    let run = format!("{}!!b", "a".repeat(30));
    assert_eq!(sanitize_label(&run), format!("{}_b", "a".repeat(30)));
}

#[test]
fn runs_are_named_by_label_hash_and_time() {
    assert_eq!(
        run_id(Some(" Smoke Test "), Some("0123456789abcdef"), 1700000000123),
        "smoke_test-0123456789ab-1700000000123"
    );
    assert_eq!(run_id(None, None, 0), "run-unknown-0");
    assert_eq!(run_id(Some("  "), Some("abc"), 7), "run-abc-7");
    assert_eq!(
        run_id(Some("x"), Some("0123456789ab"), u128::MAX),
        format!("x-0123456789ab-{}", u128::MAX)
    );
    assert_eq!(EVIDENCE_DIR, "evidence");
    assert_eq!(TOOL_VERSION, "0.7.0");
}

#[test]
fn transcript_begins_with_its_heading() {
    let mut quiet = Transcript::new(false);
    assert!(quiet.note("hidden").is_empty());
    assert!(quiet.block("t", "c").is_empty());
    assert!(!quiet.started);
    let mut loud = Transcript::new(true);
    assert_eq!(loud.note("first"), vec!["transcript:", "- first"]);
    assert!(loud.started);
    assert_eq!(loud.note("second"), vec!["- second"]);
    assert_eq!(
        loud.block("help", "text\nmore"),
        vec!["--- help ---", "text\nmore", "--- end help ---"]
    );
    let mut fresh = Transcript::new(true);
    assert_eq!(
        fresh.block("t", ""),
        vec!["transcript:", "--- t ---", "", "--- end t ---"]
    );
}

#[test]
fn prompt_holds_its_parts_in_order() {
    let prompt = build_prompt("/bin/ls", "HELP", "SCHEMA", "CATALOG", Some("EXAMPLE"));
    let expected = "Return a single JSON object that conforms to the schema below.\n\
Output JSON only. No prose, no code fences, and no markdown.\n\
Begin with '{' and end with '}'.\n\n\
Target binary path (must match exactly):\n\
/bin/ls\n\n\
Fixture catalog (allowed fixture.id values):\n\
CATALOG\n\nSchema:\n\
SCHEMA\n\nExample (format only; replace values as needed):\n\
EXAMPLE\n\nRaw help text:\n\
HELP\n\nConstraints:\n \
- Use the target binary path verbatim in binary.path.\n \
- args must be an array of strings (no shell parsing).\n \
- rationale must be short, plain text.\n \
- fixture.id must come from the fixture catalog.\n \
- artifacts.capture_exit_code must be true.\n \
- limits must be present and within schema bounds.\n";
    assert_eq!(prompt, expected);
    let bare = build_prompt("/bin/ls", "HELP", "SCHEMA", "CATALOG", None);
    assert!(!bare.contains("Example"));
    assert!(bare.contains("SCHEMA\n\nRaw help text:\nHELP"));
}

#[test]
fn command_placeholders_are_filled() {
    let command = LmCommand {
        argv: vec![
            "tool".to_string(),
            "--schema".to_string(),
            "{schema}".to_string(),
            "{prompt}".to_string(),
        ],
    };
    let run = lm_invocation("PROMPT", "SCHEMA", &command).expect("invocation");
    assert_eq!(run.program, "tool");
    assert_eq!(run.args, vec!["--schema", "SCHEMA", "PROMPT"]);
    assert!(!run.prompt_on_stdin);
    let piped = LmCommand {
        argv: vec!["tool".to_string(), "{schema}".to_string()],
    };
    let run = lm_invocation("{schema}", "SCHEMA", &piped).expect("invocation");
    assert_eq!(run.args, vec!["SCHEMA"]);
    assert!(run.prompt_on_stdin);
    let echo = LmCommand {
        argv: vec!["{prompt}".to_string()],
    };
    let run = lm_invocation("{schema}", "SCHEMA", &echo).expect("invocation");
    assert_eq!(run.program, "SCHEMA");
    assert!(run.args.is_empty());
    assert!(!run.prompt_on_stdin);
    let empty = LmCommand { argv: Vec::new() };
    assert_eq!(lm_invocation("p", "s", &empty).err(), Some(EmptyCommand));
}

#[test]
fn help_comes_from_the_first_channel_that_printed() {
    let limits = help_limits();
    assert_eq!(limits.wall_time_ms, 2000);
    assert_eq!(limits.cpu_time_ms, 1000);
    assert_eq!(limits.memory_kb, 65536);
    assert_eq!(limits.file_size_kb, 1024);
    let printed = run_result(Some(0), false, 5, b"usage".to_vec(), b"warn".to_vec());
    let capture = help_capture(printed, "--help").expect("capture");
    assert_eq!(capture.bytes, b"usage");
    assert_eq!(capture.source, "stdout");
    assert_eq!(capture.flag, "--help");
    assert!(!needs_short_help(&capture));
    let complained = run_result(Some(2), false, 5, Vec::new(), b"usage".to_vec());
    let capture = help_capture(complained, "-h").expect("capture");
    assert_eq!(capture.bytes, b"usage");
    assert_eq!(capture.source, "stderr");
    let silent = run_result(Some(0), false, 5, Vec::new(), Vec::new());
    assert!(needs_short_help(&help_capture(silent, "--help").expect("capture")));
    let late = run_result(None, true, 2001, b"usage".to_vec(), Vec::new());
    assert_eq!(help_capture(late, "--help").err(), Some(HelpTimedOut));
}

#[test]
fn targets_are_named_by_path_or_by_name() {
    assert_eq!(input_kind("ls"), Ok(InputKind::Name));
    assert_eq!(input_kind("./ls"), Ok(InputKind::Path));
    assert_eq!(input_kind("/bin/ls"), Ok(InputKind::Path));
    assert_eq!(input_kind("  "), Err(InputError::Empty));
}

#[test]
fn a_configured_command_names_a_program() {
    let command = configured_command(vec!["tool".to_string()]).expect("command");
    assert_eq!(command.argv, vec!["tool"]);
    assert_eq!(configured_command(Vec::new()).err(), Some(EmptyCommand));
}
