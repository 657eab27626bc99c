use binary_man::help::{extract_help_options, BindingHint, HelpOption, ValueForm};
use binary_man::help_render::render_help_options;

#[test]
fn extracts_options_from_row() {
    let content = "  -a, --all  include dotfiles\n";
    let options = extract_help_options(content);
    let mut names: Vec<String> = options.into_iter().map(|opt| opt.option).collect();
    names.sort();
    assert_eq!(names, vec!["--all", "-a"]);
}

#[test]
fn extracts_binding_hint_attached_optional() {
    let content = "  --color[=WHEN]  colorize output\n";
    let options = extract_help_options(content);
    let hint = options[0].binding.expect("binding hint");
    assert!(hint.optional);
    assert_eq!(hint.form, ValueForm::Attached);
}

#[test]
fn ignores_non_option_lines() {
    let content = "Examples:\n  ls --color=auto\n";
    let options = extract_help_options(content);
    assert!(options.is_empty());
}

#[test]
fn keeps_first_seen_order_and_merges_hints() {
    let content = "Usage: tool [OPTION]...\n\
  -a, --all                  do not ignore entries\n\
      --color[=WHEN]         colorize the output\n\
  -w, --width=COLS           set output width\n\
  -T COLS                    tab size\n\
  -T, --tabsize=COLS         assume tab stops\n\
  --- not an option\n";
    let options = extract_help_options(content);
    let names: Vec<&str> = options.iter().map(|opt| opt.option.as_str()).collect();
    assert_eq!(names, vec!["-a", "--all", "--color", "-w", "--width", "-T", "--tabsize"]);
    assert!(options[0].binding.is_none());
    assert!(options[1].binding.is_none());
    let color = options[2].binding.expect("hint of --color");
    assert!(color.optional);
    assert_eq!(color.form, ValueForm::Attached);
    let width = options[3].binding.expect("hint of -w");
    assert!(!width.optional);
    assert_eq!(width.form, ValueForm::Attached);
    let tab = options[5].binding.expect("hint of -T");
    assert!(!tab.optional);
    assert_eq!(tab.form, ValueForm::Attached);
}

#[test]
fn splits_options_joined_by_a_comma() {
    let options = extract_help_options("  -a,--all  show all\n");
    let names: Vec<&str> = options.iter().map(|opt| opt.option.as_str()).collect();
    assert_eq!(names, vec!["-a", "--all"]);
}

#[test]
fn reads_trailing_placeholders() {
    let options = extract_help_options("  -o FILE  write to FILE\n  -x [LEVEL]  level\n  -I <dir>  include\n");
    let names: Vec<&str> = options.iter().map(|opt| opt.option.as_str()).collect();
    assert_eq!(names, vec!["-o", "-x", "-I"]);
    let file = options[0].binding.expect("hint of -o");
    assert!(!file.optional);
    assert_eq!(file.form, ValueForm::Trailing);
    let level = options[1].binding.expect("hint of -x");
    assert!(level.optional);
    assert_eq!(level.form, ValueForm::Trailing);
    let dir = options[2].binding.expect("hint of -I");
    assert!(!dir.optional);
    assert_eq!(dir.form, ValueForm::Trailing);
}

#[test]
fn single_space_fallback_splits_before_the_description() {
    let options = extract_help_options("-v, --verbose be loud\n");
    let names: Vec<&str> = options.iter().map(|opt| opt.option.as_str()).collect();
    assert_eq!(names, vec!["-v", "--verbose"]);
    assert!(options[0].binding.is_none());
    let long_line = format!("-q quiet {}\n", "word ".repeat(20));
    assert!(long_line.trim().len() > 72);
    let options = extract_help_options(&long_line);
    let names: Vec<&str> = options.iter().map(|opt| opt.option.as_str()).collect();
    assert_eq!(names, vec!["-q"]);
}

#[test]
fn rejects_malformed_option_tokens() {
    assert!(extract_help_options("  --  end of options\n").is_empty());
    assert!(extract_help_options("  --=x  nothing\n").is_empty());
    assert!(extract_help_options("  -ab  two letters\n").is_empty());
    assert!(extract_help_options("  --name=  empty argument\n").is_empty());
    assert!(extract_help_options("  --_x  underscore first\n").is_empty());
    let options = extract_help_options("  --a-b  dashes inside\r\n");
    assert_eq!(options.len(), 1);
    assert_eq!(options[0].option, "--a-b");
}

#[test]
fn rendered_options_parse_back() {
    let content = "Usage: tool [OPTION]...\n\
  -a, --all                  do not ignore entries\n\
      --color[=WHEN]         colorize the output\n\
  -w, --width=COLS           set output width\n\
  -o FILE, --output FILE     write to FILE\n\
  -x [LEVEL]                 level\n";
    let parsed = extract_help_options(content);
    let text = render_help_options(&parsed);
    assert_eq!(
        text,
        "-a\n--all\n--color[=ARG]\n-w=ARG\n--width=ARG\n-o ARG\n--output ARG\n-x [ARG]\n"
    );
    let again = extract_help_options(&text);
    assert_eq!(again.len(), parsed.len());
    for (first, second) in parsed.iter().zip(again.iter()) {
        assert_eq!(first.option, second.option);
        assert_eq!(first.binding, second.binding);
    }
    assert_eq!(render_help_options(&again), text);
}

#[test]
fn renders_each_form_of_hint() {
    let options = vec![
        HelpOption {
            option: "--size".to_string(),
            binding: Some(BindingHint {
                optional: false,
                form: ValueForm::Trailing,
            }),
        },
        HelpOption {
            option: "-q".to_string(),
            binding: None,
        },
    ];
    assert_eq!(render_help_options(&options), "--size ARG\n-q\n");
    assert_eq!(render_help_options(&Vec::new()), "");
}

#[test]
fn single_space_fallback_stops_at_72_characters() {
    let short = format!("-v leads {}", "X".repeat(63));
    assert_eq!(short.chars().count(), 72);
    let options = extract_help_options(&short);
    assert_eq!(options.len(), 1);
    assert_eq!(options[0].option, "-v");
    assert!(options[0].binding.is_none());
    let long = format!("-v leads {}", "X".repeat(64));
    assert_eq!(long.chars().count(), 73);
    let options = extract_help_options(&long);
    assert_eq!(options.len(), 1);
    let hint = options[0].binding.expect("hint from the placeholder");
    assert!(!hint.optional);
    assert_eq!(hint.form, ValueForm::Trailing);
    let outnumbered = extract_help_options("-v one two three FOUR\n");
    let hint = outnumbered[0].binding.expect("no split where other tokens outnumber");
    assert_eq!(hint.form, ValueForm::Trailing);
}
