//! The tools: for each family of commands, which program to run with which
//! arguments, and what to show once it has finished.
//!
//! A tool spawns nothing itself. It plans a command, and reports on the
//! outcome that its caller hands back.
pub mod cargo;
pub mod docker;
pub mod fs;
pub mod generic;
pub mod git;
pub mod grep;
pub mod python;

use crate::runner::RunResult;
use crate::text::buffer::{push_chars, push_str};
use crate::text::convert::{chars_of, str_equals, str_has_prefix, string_of, texts};
use crate::text::matching::starts_with;
use crate::text::number::{decimal, push_decimal_wide, push_signed_decimal, signed_decimal};
use vstd::prelude::*;

verus! {

/// What a tool asks of its caller.
pub enum Plan {
    /// Nothing is to be run: this is the text to show.
    Answer(String),
    /// Run this program with these arguments, then ask for the report.
    Run(String, Vec<String>),
}

/// The model of a plan.
pub ghost enum PlanView {
    Answer(Seq<char>),
    Run(Seq<char>, Seq<Seq<char>>),
}

impl View for Plan {
    type V = PlanView;

    open spec fn view(&self) -> PlanView {
        match self {
            Plan::Answer(text) => PlanView::Answer(text@),
            Plan::Run(program, args) => PlanView::Run(program@, texts(args@)),
        }
    }
}

/// A tool knows how to build a command and which compressor to apply.
pub trait Tool {
    /// The plan that `plan` returns.
    spec fn planned(&self) -> PlanView;

    /// The text that `report` returns.
    spec fn reported(&self, outcome: Result<RunResult, String>) -> Seq<char>;

    /// What to run, or what to answer at once.
    fn plan(&self) -> (p: Plan)
        ensures
            p@ == self.planned(),
    ;

    /// The text to show for the outcome of the planned command: its
    /// compressed output and a footer, or the reason why it could not run.
    fn report(&self, outcome: &Result<RunResult, String>) -> (out: String)
        ensures
            out@ == self.reported(*outcome),
    ;
}

/// The footer for a finished command: label, verdict, time and exit code.
pub open spec fn footer_text(label: Seq<char>, result: RunResult) -> Seq<char> {
    "["@ + label + "] "@ + (if result.exit_code == 0 {
        "ok"@
    } else {
        "FAIL"@
    }) + " ("@ + decimal(result.elapsed_ms as nat) + "ms, exit "@ + signed_decimal(
        result.exit_code as int,
    ) + ")"@
}

/// Appends the footer.
pub fn push_footer(out: &mut Vec<char>, label: &str, result: &RunResult)
    ensures
        final(out)@ == old(out)@ + footer_text(label@, *result),
{
    push_str(out, "[");
    push_str(out, label);
    push_str(out, "] ");
    if result.success() {
        push_str(out, "ok");
    } else {
        push_str(out, "FAIL");
    }
    push_str(out, " (");
    push_decimal_wide(out, result.elapsed_ms);
    push_str(out, "ms, exit ");
    push_signed_decimal(out, result.exit_code);
    push_str(out, ")");
    assert(out@ =~= old(out)@ + footer_text(label@, *result));
}

/// Format a one-line footer with timing and exit code.
pub fn footer(label: &str, result: &RunResult) -> (out: String)
    ensures
        out@ == footer_text(label@, *result),
{
    let mut out: Vec<char> = Vec::new();
    push_footer(&mut out, label, result);
    assert(out@ =~= footer_text(label@, *result));
    string_of(&out)
}

/// What a tool shows for an outcome: behind the summary of the combined
/// output, the footer; for a command that could not run, the reason behind
/// the label.
pub open spec fn report_text(
    label: Seq<char>,
    summary: spec_fn(Seq<char>) -> Seq<char>,
    outcome: Result<RunResult, String>,
) -> Seq<char> {
    match outcome {
        Ok(result) => summary(result.combined_text()) + footer_text(label, result),
        Err(reason) => "["@ + label + "] error: "@ + reason@,
    }
}

/// The report for a command that could not run.
pub fn failure_report(label: &str, reason: &String) -> (out: String)
    ensures
        out@ == "["@ + label@ + "] error: "@ + reason@,
{
    let mut out: Vec<char> = Vec::new();
    push_str(&mut out, "[");
    push_str(&mut out, label);
    push_str(&mut out, "] error: ");
    let chars = chars_of(reason.as_str());
    push_chars(&mut out, &chars);
    assert(out@ =~= "["@ + label@ + "] error: "@ + reason@);
    string_of(&out)
}

/// The report for a finished command, given the summary of its output.
pub fn success_report(summary: &String, label: &str, result: &RunResult) -> (out: String)
    ensures
        out@ == summary@ + footer_text(label@, *result),
{
    let mut out = chars_of(summary.as_str());
    push_footer(&mut out, label, result);
    string_of(&out)
}

/// A copy of the strings from index `from` on.
pub fn copy_from(items: &Vec<String>, from: usize) -> (out: Vec<String>)
    requires
        from <= items.len(),
    ensures
        texts(out@) == texts(items@).skip(from as int),
{
    let mut out: Vec<String> = Vec::new();
    let mut i: usize = from;
    while i < items.len()
        invariant
            from <= i <= items.len(),
            out.len() == i - from,
            forall|k: int| 0 <= k < out.len() ==> out@[k]@ == items@[from + k]@,
        decreases items.len() - i,
    {
        out.push(items[i].clone());
        i += 1;
    }
    assert(texts(out@) =~= texts(items@).skip(from as int));
    out
}

/// Appends copies of the strings from index `from` on.
pub fn push_copies(out: &mut Vec<String>, items: &Vec<String>, from: usize)
    requires
        from <= items.len(),
    ensures
        texts(final(out)@) == texts(old(out)@) + texts(items@).skip(from as int),
{
    let mut i: usize = from;
    assert(texts(out@) =~= texts(old(out)@) + texts(items@).subrange(from as int, i as int));
    while i < items.len()
        invariant
            from <= i <= items.len(),
            texts(out@) == texts(old(out)@) + texts(items@).subrange(from as int, i as int),
        decreases items.len() - i,
    {
        let ghost before = texts(out@);
        out.push(items[i].clone());
        assert(texts(out@) =~= before.push(items@[i as int]@));
        i += 1;
        assert(texts(out@) =~= texts(old(out)@) + texts(items@).subrange(from as int, i as int));
    }
    assert(texts(items@).subrange(from as int, items.len() as int) =~= texts(items@).skip(
        from as int,
    ));
}

/// Appends a copy of the literal.
pub fn push_arg(out: &mut Vec<String>, arg: &str)
    ensures
        texts(final(out)@) == texts(old(out)@).push(arg@),
{
    out.push(arg.to_owned());
    assert(texts(out@) =~= texts(old(out)@).push(arg@));
}

/// One of the items is `arg`.
pub open spec fn names(items: Seq<Seq<char>>, arg: Seq<char>) -> bool {
    items.contains(arg)
}

/// One of the items begins with `prefix`.
pub open spec fn any_starts_with(items: Seq<Seq<char>>, prefix: Seq<char>) -> bool {
    exists|i: int| 0 <= i < items.len() && starts_with(#[trigger] items[i], prefix)
}

/// Whether one of the arguments from index `from` on is `arg`.
pub fn has_arg(items: &Vec<String>, from: usize, arg: &str) -> (b: bool)
    requires
        from <= items.len(),
    ensures
        b == names(texts(items@).skip(from as int), arg@),
{
    let ghost rest = texts(items@).skip(from as int);
    let mut i: usize = from;
    while i < items.len()
        invariant
            from <= i <= items.len(),
            rest == texts(items@).skip(from as int),
            forall|k: int| 0 <= k < i - from ==> rest[k] != arg@,
        decreases items.len() - i,
    {
        if str_equals(items[i].as_str(), arg) {
            assert(rest[i - from] == arg@);
            return true;
        }
        i += 1;
    }
    false
}

/// Whether one of the arguments from index `from` on begins with `prefix`.
pub fn has_arg_with_prefix(items: &Vec<String>, from: usize, prefix: &str) -> (b: bool)
    requires
        from <= items.len(),
    ensures
        b == any_starts_with(texts(items@).skip(from as int), prefix@),
{
    let ghost rest = texts(items@).skip(from as int);
    let mut i: usize = from;
    while i < items.len()
        invariant
            from <= i <= items.len(),
            rest == texts(items@).skip(from as int),
            forall|k: int| 0 <= k < i - from ==> !starts_with(#[trigger] rest[k], prefix@),
        decreases items.len() - i,
    {
        if str_has_prefix(items[i].as_str(), prefix) {
            assert(starts_with(rest[i - from], prefix@));
            return true;
        }
        i += 1;
    }
    false
}

/// `[arg]` if `wanted`, else nothing.
pub open spec fn arg_if(wanted: bool, arg: Seq<char>) -> Seq<Seq<char>> {
    if wanted {
        seq![arg]
    } else {
        Seq::empty()
    }
}

/// Appends a copy of the literal if `wanted`.
pub fn push_arg_if(out: &mut Vec<String>, wanted: bool, arg: &str)
    ensures
        texts(final(out)@) == texts(old(out)@) + arg_if(wanted, arg@),
{
    if wanted {
        push_arg(out, arg);
        assert(texts(out@) =~= texts(old(out)@) + seq![arg@]);
    } else {
        assert(texts(out@) =~= texts(old(out)@) + Seq::<Seq<char>>::empty());
    }
}

} // verus!
