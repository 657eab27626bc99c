//! Prompt assembly for scenario generation, and the command that takes the
//! prompt.

use crate::limits::ScenarioLimits;
use crate::runner::RunResult;
use crate::text::{chars_of, lemma_views_push, push_str, same, string_of, views};
use vstd::prelude::*;

verus! {

/// The limits under which help text is captured.
pub fn help_limits() -> (limits: ScenarioLimits)
    ensures
        limits == (ScenarioLimits {
            wall_time_ms: 2000,
            cpu_time_ms: 1000,
            memory_kb: 65536,
            file_size_kb: 1024,
        }),
{
    ScenarioLimits { wall_time_ms: 2000, cpu_time_ms: 1000, memory_kb: 65536, file_size_kb: 1024 }
}

/// The command that takes a prompt.
#[derive(Debug, Clone)]
pub struct LmCommand {
    pub argv: Vec<String>,
}

/// The configured command, which must name a program.
pub fn configured_command(argv: Vec<String>) -> (r: Result<LmCommand, EmptyCommand>)
    ensures
        match r {
            Ok(command) => command.argv == argv && argv@.len() > 0,
            Err(_) => argv@.len() == 0,
        },
{
    if argv.len() == 0 {
        Err(EmptyCommand)
    } else {
        Ok(LmCommand { argv })
    }
}

/// Help text as it was captured.
#[derive(Debug, Clone)]
pub struct HelpCapture {
    pub bytes: Vec<u8>,
    pub source: &'static str,
    pub flag: &'static str,
}

/// The help run took longer than it may.
#[derive(Debug, Clone, Copy, PartialEq, Eq, Structural)]
pub struct HelpTimedOut;

/// Takes the help text of a run of the binary with `flag`: its standard
/// output unless that is empty, else its standard error. A run that timed
/// out gives none.
pub fn help_capture(result: RunResult, flag: &'static str) -> (r: Result<HelpCapture, HelpTimedOut>)
    ensures
        match r {
            Ok(capture) => {
                &&& !result.timed_out
                &&& capture.flag == flag
                &&& capture.bytes@ == (if result.stdout@.len() > 0 {
                    result.stdout@
                } else {
                    result.stderr@
                })
                &&& capture.source@ == (if result.stdout@.len() > 0 {
                    "stdout"@
                } else {
                    "stderr"@
                })
            },
            Err(_) => result.timed_out,
        },
{
    if result.timed_out {
        return Err(HelpTimedOut);
    }
    if result.stdout.len() > 0 {
        return Ok(HelpCapture { bytes: result.stdout, source: "stdout", flag });
    }
    Ok(HelpCapture { bytes: result.stderr, source: "stderr", flag })
}

/// Whether `-h` has to be tried: `--help` printed nothing.
pub fn needs_short_help(capture: &HelpCapture) -> (b: bool)
    ensures
        b == (capture.bytes@.len() == 0),
{
    capture.bytes.len() == 0
}

/// The example of a prompt, where one is given.
pub open spec fn example_part(example: Option<Seq<char>>) -> Seq<char> {
    match example {
        Some(e) => "\n\nExample (format only; replace values as needed):\n"@ + e,
        None => Seq::<char>::empty(),
    }
}

/// What every prompt begins with.
pub open spec fn prompt_head() -> Seq<char> {
    "Return a single JSON object that conforms to the schema below.\n"@
        + "Output JSON only. No prose, no code fences, and no markdown.\n"@
        + "Begin with '{' and end with '}'.\n\n"@
        + "Target binary path (must match exactly):\n"@
}

/// What every prompt ends with.
pub open spec fn prompt_constraints() -> Seq<char> {
    "\n\nConstraints:\n - Use the target binary path verbatim in binary.path.\n - args must be an array of strings (no shell parsing).\n - rationale must be short, plain text.\n - fixture.id must come from the fixture catalog.\n - artifacts.capture_exit_code must be true.\n - limits must be present and within schema bounds.\n"@
}

/// The prompt for scenario generation: the binary, the fixture catalog,
/// the schema, an example where there is one, the raw help text, and the
/// constraints.
pub open spec fn prompt_text(
    binary_path: Seq<char>,
    help_text: Seq<char>,
    schema_text: Seq<char>,
    catalog_text: Seq<char>,
    example_text: Option<Seq<char>>,
) -> Seq<char> {
    prompt_head() + binary_path + "\n\n"@ + "Fixture catalog (allowed fixture.id values):\n"@
        + catalog_text + "\n\nSchema:\n"@ + schema_text + example_part(example_text)
        + "\n\nRaw help text:\n"@ + help_text + prompt_constraints()
}

fn push_head(prompt: &mut Vec<char>)
    ensures
        final(prompt)@ == old(prompt)@ + prompt_head(),
{
    push_str(prompt, "Return a single JSON object that conforms to the schema below.\n");
    push_str(prompt, "Output JSON only. No prose, no code fences, and no markdown.\n");
    push_str(prompt, "Begin with '{' and end with '}'.\n\n");
    push_str(prompt, "Target binary path (must match exactly):\n");
    assert(prompt@ =~= old(prompt)@ + prompt_head());
}

fn push_example(prompt: &mut Vec<char>, example_text: Option<&str>)
    ensures
        final(prompt)@ == old(prompt)@ + example_part(
            match example_text {
                Some(e) => Some(e@),
                None => None,
            },
        ),
{
    if let Some(example) = example_text {
        push_str(prompt, "\n\nExample (format only; replace values as needed):\n");
        push_str(prompt, example);
    }
    assert(prompt@ =~= old(prompt)@ + example_part(
        match example_text {
            Some(e) => Some(e@),
            None => None,
        },
    ));
}

/// Build the prompt for scenario generation.
pub fn build_prompt(
    binary_path: &str,
    help_text: &str,
    schema_text: &str,
    catalog_text: &str,
    example_text: Option<&str>,
) -> (prompt: String)
    ensures
        prompt@ == prompt_text(
            binary_path@,
            help_text@,
            schema_text@,
            catalog_text@,
            match example_text {
                Some(e) => Some(e@),
                None => None,
            },
        ),
{
    let mut prompt: Vec<char> = Vec::new();
    push_head(&mut prompt);
    push_str(&mut prompt, binary_path);
    push_str(&mut prompt, "\n\n");
    push_str(&mut prompt, "Fixture catalog (allowed fixture.id values):\n");
    push_str(&mut prompt, catalog_text);
    push_str(&mut prompt, "\n\nSchema:\n");
    push_str(&mut prompt, schema_text);
    push_example(&mut prompt, example_text);
    push_str(&mut prompt, "\n\nRaw help text:\n");
    push_str(&mut prompt, help_text);
    push_str(
        &mut prompt,
        "\n\nConstraints:\n - Use the target binary path verbatim in binary.path.\n - args must be an array of strings (no shell parsing).\n - rationale must be short, plain text.\n - fixture.id must come from the fixture catalog.\n - artifacts.capture_exit_code must be true.\n - limits must be present and within schema bounds.\n",
    );
    assert(prompt@ =~= prompt_text(
        binary_path@,
        help_text@,
        schema_text@,
        catalog_text@,
        match example_text {
            Some(e) => Some(e@),
            None => None,
        },
    ));
    string_of(prompt.as_slice())
}

/// An argument of the command with its placeholder filled in: `{prompt}`
/// stands for the prompt and `{schema}` for the schema, the prompt taken
/// first.
pub open spec fn filled(arg: Seq<char>, prompt: Seq<char>, schema: Seq<char>) -> Seq<char> {
    let first = if arg == "{prompt}"@ {
        prompt
    } else {
        arg
    };
    if first == "{schema}"@ {
        schema
    } else {
        first
    }
}

/// The arguments of the command with their placeholders filled in.
pub open spec fn filled_argv(argv: Seq<Seq<char>>, prompt: Seq<char>, schema: Seq<char>) -> Seq<
    Seq<char>,
> {
    argv.map_values(|arg: Seq<char>| filled(arg, prompt, schema))
}

/// The command names the prompt among its arguments, so that it does not
/// take the prompt on its standard input.
pub open spec fn has_prompt_placeholder(argv: Seq<Seq<char>>) -> bool {
    exists|i: int| 0 <= i < argv.len() && #[trigger] argv[i] == "{prompt}"@
}

/// How the command is run.
#[derive(Debug, Clone)]
pub struct LmInvocation {
    pub program: String,
    pub args: Vec<String>,
    /// The prompt goes to the standard input of the command.
    pub prompt_on_stdin: bool,
}

/// The command has no program to run.
#[derive(Debug, Clone, Copy, PartialEq, Eq, Structural)]
pub struct EmptyCommand;

fn is_text(arg: &str, text: &str) -> (b: bool)
    ensures
        b == (arg@ == text@),
{
    let a = chars_of(arg);
    let t = chars_of(text);
    same(a.as_slice(), t.as_slice())
}

/// Fills the prompt and the schema into the command and splits off its
/// program.
pub fn lm_invocation(prompt: &str, schema: &str, command: &LmCommand) -> (r: Result<
    LmInvocation,
    EmptyCommand,
>)
    ensures
        match r {
            Ok(run) => {
                let all = filled_argv(views(command.argv@), prompt@, schema@);
                &&& command.argv@.len() > 0
                &&& run.program@ == all[0]
                &&& views(run.args@) == all.skip(1)
                &&& run.prompt_on_stdin == !has_prompt_placeholder(views(command.argv@))
            },
            Err(_) => command.argv@.len() == 0,
        },
{
    if command.argv.len() == 0 {
        return Err(EmptyCommand);
    }
    let ghost all = filled_argv(views(command.argv@), prompt@, schema@);
    let mut has_placeholder = false;
    let mut program = String::new();
    let mut args: Vec<String> = Vec::new();
    let mut i: usize = 0;
    assert(views(args@) =~= seq![]);
    while i < command.argv.len()
        invariant
            i <= command.argv.len(),
            command.argv.len() > 0,
            all == filled_argv(views(command.argv@), prompt@, schema@),
            has_placeholder == exists|k: int|
                0 <= k < i && #[trigger] views(command.argv@)[k] == "{prompt}"@,
            i > 0 ==> program@ == all[0],
            i > 0 ==> views(args@) == all.subrange(1, i as int),
            i == 0 ==> views(args@) == Seq::<Seq<char>>::empty(),
        decreases command.argv.len() - i,
    {
        let arg = &command.argv[i];
        assert(views(command.argv@)[i as int] == arg@);
        let mut value = arg.clone();
        if is_text(value.as_str(), "{prompt}") {
            value = prompt.to_owned();
            has_placeholder = true;
        }
        if is_text(value.as_str(), "{schema}") {
            value = schema.to_owned();
        }
        assert(value@ == all[i as int]);
        if i == 0 {
            program = value;
            assert(views(args@) =~= all.subrange(1, 1));
        } else {
            proof {
                lemma_views_push(args@, value);
            }
            args.push(value);
            assert(views(args@) =~= all.subrange(1, i + 1));
        }
        i = i + 1;
    }
    assert(all.subrange(1, all.len() as int) =~= all.skip(1));
    Ok(LmInvocation { program, args, prompt_on_stdin: !has_placeholder })
}

} // verus!
