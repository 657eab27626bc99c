//! The human view of a surface report.

use crate::schema::{
    BindingKind, CaptureOutput, OptionSurface, SurfaceReport, SurfaceView, ValidationStatus,
};
use crate::text::{chars_of, push_str, string_of, trim, trimmed, views};
use vstd::prelude::*;

verus! {

pub open spec fn kind_name(kind: BindingKind) -> Seq<char> {
    match kind {
        BindingKind::NoValue => "no_value"@,
        BindingKind::Required => "required"@,
        BindingKind::Optional => "optional"@,
    }
}

pub fn binding_label(kind: &BindingKind) -> (label: &'static str)
    ensures
        label@ == kind_name(*kind),
{
    match kind {
        BindingKind::NoValue => "no_value",
        BindingKind::Required => "required",
        BindingKind::Optional => "optional",
    }
}

pub open spec fn status_name(status: ValidationStatus) -> Seq<char> {
    match status {
        ValidationStatus::Confirmed => "confirmed"@,
        ValidationStatus::Refuted => "refuted"@,
        ValidationStatus::Undetermined => "undetermined"@,
    }
}

pub fn status_label(status: &ValidationStatus) -> (label: &'static str)
    ensures
        label@ == status_name(*status),
{
    match status {
        ValidationStatus::Confirmed => "confirmed",
        ValidationStatus::Refuted => "refuted",
        ValidationStatus::Undetermined => "undetermined",
    }
}

/// `text` as a line of its own.
pub open spec fn line(text: Seq<char>) -> Seq<char> {
    text + "\n"@
}

pub fn push_line(out: &mut Vec<char>, text: &str)
    ensures
        final(out)@ == old(out)@ + line(text@),
{
    push_str(out, text);
    push_str(out, "\n");
}

/// The reason of a list entry, after a dash, where there is one.
pub open spec fn reason_part(reason: Option<Seq<char>>) -> Seq<char> {
    match reason {
        Some(r) => " \u{2014} "@ + r,
        None => Seq::<char>::empty(),
    }
}

fn push_reason(out: &mut Vec<char>, reason: &Option<String>)
    ensures
        final(out)@ == old(out)@ + line(reason_part(crate::schema::text_view(*reason))),
{
    if let Some(r) = reason {
        push_str(out, " \u{2014} ");
        push_str(out, r.as_str());
    }
    push_str(out, "\n");
}

/// The entry of an option in the existence list.
pub open spec fn status_entry(surface: SurfaceView) -> Seq<char> {
    "- "@ + surface.option + " ("@ + status_name(surface.existence.status) + ")"@ + line(
        reason_part(surface.existence.reason),
    )
}

/// The entry of an option in the binding list.
pub open spec fn binding_entry(surface: SurfaceView) -> Seq<char> {
    "- "@ + surface.option + " ("@ + (match surface.binding.kind {
        Some(kind) => kind_name(kind) + ", "@,
        None => Seq::<char>::empty(),
    }) + status_name(surface.binding.status) + ")"@ + line(reason_part(surface.binding.reason))
}

/// The existence entries of the first `n` options.
pub open spec fn status_entries(options: Seq<SurfaceView>, n: int) -> Seq<char>
    decreases n,
{
    if n <= 0 {
        Seq::<char>::empty()
    } else {
        status_entries(options, n - 1) + status_entry(options[n - 1])
    }
}

/// The binding entries of the first `n` options.
pub open spec fn binding_entries(options: Seq<SurfaceView>, n: int) -> Seq<char>
    decreases n,
{
    if n <= 0 {
        Seq::<char>::empty()
    } else {
        binding_entries(options, n - 1) + binding_entry(options[n - 1])
    }
}

pub fn render_status_list(out: &mut Vec<char>, options: &Vec<OptionSurface>)
    ensures
        final(out)@ == old(out)@ + status_entries(views(options@), options.len() as int),
{
    let mut i: usize = 0;
    while i < options.len()
        invariant
            i <= options.len(),
            out@ == old(out)@ + status_entries(views(options@), i as int),
        decreases options.len() - i,
    {
        let option = &options[i];
        push_str(out, "- ");
        push_str(out, option.option.as_str());
        push_str(out, " (");
        push_str(out, status_label(&option.existence.status));
        push_str(out, ")");
        push_reason(out, &option.existence.reason);
        i = i + 1;
    }
}

pub fn render_binding_list(out: &mut Vec<char>, options: &Vec<OptionSurface>)
    ensures
        final(out)@ == old(out)@ + binding_entries(views(options@), options.len() as int),
{
    let mut i: usize = 0;
    while i < options.len()
        invariant
            i <= options.len(),
            out@ == old(out)@ + binding_entries(views(options@), i as int),
        decreases options.len() - i,
    {
        let ghost before = out@;
        let option = &options[i];
        push_str(out, "- ");
        push_str(out, option.option.as_str());
        push_str(out, " (");
        if let Some(kind) = &option.binding.kind {
            push_str(out, binding_label(kind));
            push_str(out, ", ");
        }
        push_str(out, status_label(&option.binding.status));
        push_str(out, ")");
        push_reason(out, &option.binding.reason);
        assert(out@ =~= before + binding_entry(option@));
        i = i + 1;
    }
}

/// The first line of `text[start..]` that is not blank, trimmed, where the
/// line being read began at `start` and `i` is the next character to look
/// at.
pub open spec fn first_line_from(text: Seq<char>, start: int, i: int) -> Option<Seq<char>>
    decreases text.len() - i,
{
    if i < 0 || i >= text.len() {
        if trimmed(text.subrange(start, text.len() as int)).len() > 0 {
            Some(trimmed(text.subrange(start, text.len() as int)))
        } else {
            None
        }
    } else if text[i] == '\n' {
        if trimmed(text.subrange(start, i)).len() > 0 {
            Some(trimmed(text.subrange(start, i)))
        } else {
            first_line_from(text, i + 1, i + 1)
        }
    } else {
        first_line_from(text, start, i + 1)
    }
}

/// The first line of standard output that is not blank, else that of
/// standard error, without the white space around it.
pub open spec fn first_line(stdout: Seq<char>, stderr: Seq<char>) -> Option<Seq<char>> {
    match first_line_from(stdout, 0, 0) {
        Some(l) => Some(l),
        None => first_line_from(stderr, 0, 0),
    }
}

fn first_line_of(text: &str) -> (found: Option<String>)
    ensures
        crate::schema::text_view(found) == first_line_from(text@, 0, 0),
{
    let chars = chars_of(text);
    let s = chars.as_slice();
    let mut start: usize = 0;
    let mut i: usize = 0;
    while i < s.len()
        invariant
            start <= i <= s.len(),
            s@ == text@,
            first_line_from(s@, start as int, i as int) == first_line_from(s@, 0, 0),
        decreases s.len() - i,
    {
        if s[i] == '\n' {
            let found = trim(&s[start..i]);
            if found.len() > 0 {
                return Some(string_of(found));
            }
            start = i + 1;
        }
        i = i + 1;
    }
    let found = trim(&s[start..s.len()]);
    if found.len() > 0 {
        Some(string_of(found))
    } else {
        None
    }
}

pub fn first_nonempty_line(capture: &CaptureOutput) -> (found: Option<String>)
    ensures
        crate::schema::text_view(found) == first_line(capture.stdout@, capture.stderr@),
{
    match first_line_of(capture.stdout.as_str()) {
        Some(found) => Some(found),
        None => first_line_of(capture.stderr.as_str()),
    }
}

/// The head of the view: title and binary identity.
pub open spec fn identity_part(report: SurfaceReport, name: Seq<char>) -> Seq<char> {
    line("# "@ + name + " surface"@) + line(""@) + line("## Binary Identity"@) + line(
        "- Invoked Path: "@ + report.invoked_path@,
    ) + line("- Resolved Path: "@ + report.binary_identity.path@) + line(
        "- Hash: "@ + report.binary_identity.hash.algo@ + ":"@ + report.binary_identity.hash.value@,
    ) + line(
        "- Platform: "@ + report.binary_identity.platform.os@ + "/"@
            + report.binary_identity.platform.arch@,
    ) + line(
        "- Environment: LC_ALL="@ + report.binary_identity.env.locale@ + " TZ="@
            + report.binary_identity.env.tz@ + " TERM="@ + report.binary_identity.env.term@,
    )
}

/// The version line, where the binary reported a version.
pub open spec fn version_part(report: SurfaceReport) -> Seq<char> {
    match first_line(report.self_report.version.stdout@, report.self_report.version.stderr@) {
        Some(version) => line("- Version: "@ + version),
        None => Seq::<char>::empty(),
    }
}

pub open spec fn tiers_part() -> Seq<char> {
    line(""@) + line("## Higher Tiers"@) + line("- T2 parameter form: not evaluated"@) + line(
        "- T3 parameter domain/type: not evaluated"@,
    ) + line("- T4 behavior semantics: not evaluated"@)
}

/// The view of a report under the name of its binary.
pub open spec fn markdown(report: SurfaceReport, name: Seq<char>) -> Seq<char> {
    identity_part(report, name) + version_part(report) + line(""@) + line(
        "## T0 Option Existence"@,
    ) + status_entries(views(report.options@), report.options.len() as int) + line(""@) + line(
        "## T1 Parameter Binding"@,
    ) + binding_entries(views(report.options@), report.options.len() as int) + tiers_part()
}

fn push_line2(out: &mut Vec<char>, a: &str, b: &str)
    ensures
        final(out)@ == old(out)@ + line(a@ + b@),
{
    push_str(out, a);
    push_str(out, b);
    push_str(out, "\n");
}

fn push_line4(out: &mut Vec<char>, a: &str, b: &str, c: &str, d: &str)
    ensures
        final(out)@ == old(out)@ + line(a@ + b@ + c@ + d@),
{
    push_str(out, a);
    push_str(out, b);
    push_str(out, c);
    push_str(out, d);
    push_str(out, "\n");
}

fn push_line6(out: &mut Vec<char>, a: &str, b: &str, c: &str, d: &str, e: &str, f: &str)
    ensures
        final(out)@ == old(out)@ + line(a@ + b@ + c@ + d@ + e@ + f@),
{
    push_str(out, a);
    push_str(out, b);
    push_str(out, c);
    push_str(out, d);
    push_str(out, e);
    push_str(out, f);
    push_str(out, "\n");
}

fn push_title(out: &mut Vec<char>, name: &str)
    ensures
        final(out)@ == old(out)@ + line("# "@ + name@ + " surface"@) + line(""@) + line(
            "## Binary Identity"@,
        ),
{
    push_str(out, "# ");
    push_str(out, name);
    push_str(out, " surface");
    push_str(out, "\n");
    push_line(out, "");
    push_line(out, "## Binary Identity");
}

fn push_identity(out: &mut Vec<char>, report: &SurfaceReport, name: &str)
    ensures
        final(out)@ == old(out)@ + identity_part(*report, name@),
{
    push_title(out, name);
    push_line2(out, "- Invoked Path: ", report.invoked_path.as_str());
    push_line2(out, "- Resolved Path: ", report.binary_identity.path.as_str());
    push_line4(
        out,
        "- Hash: ",
        report.binary_identity.hash.algo.as_str(),
        ":",
        report.binary_identity.hash.value.as_str(),
    );
    push_line4(
        out,
        "- Platform: ",
        report.binary_identity.platform.os.as_str(),
        "/",
        report.binary_identity.platform.arch.as_str(),
    );
    push_line6(
        out,
        "- Environment: LC_ALL=",
        report.binary_identity.env.locale.as_str(),
        " TZ=",
        report.binary_identity.env.tz.as_str(),
        " TERM=",
        report.binary_identity.env.term.as_str(),
    );
}

fn push_tiers(out: &mut Vec<char>)
    ensures
        final(out)@ == old(out)@ + tiers_part(),
{
    push_line(out, "");
    push_line(out, "## Higher Tiers");
    push_line(out, "- T2 parameter form: not evaluated");
    push_line(out, "- T3 parameter domain/type: not evaluated");
    push_line(out, "- T4 behavior semantics: not evaluated");
}

/// Renders the view of a report. `name` is the file name of the binary.
pub fn render_markdown(report: &SurfaceReport, name: &str) -> (view: String)
    ensures
        view@ == markdown(*report, name@),
{
    let mut out: Vec<char> = Vec::new();
    push_identity(&mut out, report, name);
    if let Some(version) = first_nonempty_line(&report.self_report.version) {
        push_str(&mut out, "- Version: ");
        push_line(&mut out, version.as_str());
    }
    push_line(&mut out, "");
    push_line(&mut out, "## T0 Option Existence");
    render_status_list(&mut out, &report.options);
    push_line(&mut out, "");
    push_line(&mut out, "## T1 Parameter Binding");
    render_binding_list(&mut out, &report.options);
    push_tiers(&mut out);
    string_of(out.as_slice())
}

} // verus!
