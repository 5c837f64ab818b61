//! Summaries of build-tool output.
use crate::compress::{hint_text, hint_view, Compressor};
use crate::listing::{
    block, count_note, find_last, first_n, last_of, lemma_filter_none, listing, optional_line,
    push_block, push_count_note, push_listing, push_optional_line, select, take_first,
    trim_all, trim_each, trim_optional, trimmed_line,
};
use crate::text::buffer::{push_chars, push_str, rows_contain};
use crate::text::convert::{chars_of, string_of, views};
use crate::text::lines::{join, lines, push_joined, split_lines};
use crate::text::matching::{
    contains, ends_with, has_prefix, has_substr, has_suffix, is_literal, starts_with,
};
use crate::text::number::{decimal, push_decimal};
use crate::text::space::{blank, is_blank, trim, trimmed};
use crate::text::lines::is_bare;
use crate::truncate::{
    lemma_truncated_empty, truncate, truncate_joined, truncated, MAX_LINES, MAX_LINE_LEN,
};
use vstd::prelude::*;

verus! {

// ---------------------------------------------------------------------------
// test
// ---------------------------------------------------------------------------

/// `l` opens the report of a failed test: a name between dashes.
pub open spec fn opens_failure(l: Seq<char>) -> bool {
    starts_with(l, "---- "@) && ends_with(l, " ----"@)
}

/// `l` is part of the summary of a test run.
pub open spec fn is_test_summary(l: Seq<char>) -> bool {
    ||| starts_with(l, "test result:"@)
    ||| starts_with(l, "failures:"@)
    ||| contains(l, "FAILED"@)
    ||| starts_with(l, "running "@)
}

/// Whether a failure report is open after the lines `ls`: one opens at its
/// first line and closes behind the next empty line.
///
/// This is an approximation. A report that holds an empty line of its own
/// is taken to end there.
pub open spec fn in_failure_after(ls: Seq<Seq<char>>) -> bool
    decreases ls.len(),
{
    if ls.len() == 0 {
        false
    } else {
        (in_failure_after(ls.drop_last()) || opens_failure(ls.last())) && ls.last().len() != 0
    }
}

/// The lines of `ls` that a test summary keeps: every line of a failure
/// report, and each line of the run's summary where it first occurs.
pub open spec fn test_kept(ls: Seq<Seq<char>>) -> Seq<Seq<char>>
    decreases ls.len(),
{
    if ls.len() == 0 {
        Seq::empty()
    } else {
        let before = ls.drop_last();
        let kept = test_kept(before);
        let l = ls.last();
        if in_failure_after(before) || opens_failure(l) {
            kept.push(l)
        } else if is_test_summary(l) && !kept.contains(l) {
            kept.push(l)
        } else {
            kept
        }
    }
}

/// The summary of a test run: what is kept of it, or its truncation where
/// nothing is.
pub open spec fn test_summary(raw: Seq<char>) -> Seq<char> {
    let kept = test_kept(lines(raw));
    if kept.len() == 0 {
        truncated(raw)
    } else {
        "[cargo test]\n"@ + join(kept, "\n"@)
    }
}

fn line_opens_failure(l: &Vec<char>) -> (b: bool)
    ensures
        b == opens_failure(l@),
{
    has_prefix(l, "---- ") && has_suffix(l, " ----")
}

fn test_summary_line(l: &Vec<char>) -> (b: bool)
    ensures
        b == is_test_summary(l@),
{
    has_prefix(l, "test result:") || has_prefix(l, "failures:") || has_substr(l, "FAILED")
        || has_prefix(l, "running ")
}

/// Compress `cargo test`: keep summary and failures only.
pub fn compress_test(raw: &str) -> (out: String)
    ensures
        out@ == test_summary(raw@),
{
    let chars = chars_of(raw);
    let ls = split_lines(&chars);
    let mut kept: Vec<Vec<char>> = Vec::new();
    let mut in_failure = false;
    let mut i: usize = 0;
    proof {
        assert(views(ls@).take(0) =~= Seq::empty());
        assert(views(kept@) =~= Seq::empty());
    }
    while i < ls.len()
        invariant
            i <= ls.len(),
            in_failure == in_failure_after(views(ls@).take(i as int)),
            views(kept@) == test_kept(views(ls@).take(i as int)),
        decreases ls.len() - i,
    {
        let ghost seen = views(ls@).take(i as int);
        let ghost next = views(ls@).take(i + 1);
        let ghost before = views(kept@);
        proof {
            assert(next.drop_last() =~= seen);
            assert(next.last() == ls@[i as int]@);
        }
        let line = &ls[i];
        if in_failure || line_opens_failure(line) {
            kept.push(line.clone());
            assert(views(kept@) =~= before.push(line@));
            in_failure = line.len() != 0;
        } else if test_summary_line(line) && !rows_contain(&kept, line) {
            kept.push(line.clone());
            assert(views(kept@) =~= before.push(line@));
        }
        i += 1;
    }
    assert(views(ls@).take(ls.len() as int) =~= views(ls@));
    if kept.len() == 0 {
        return truncate(raw);
    }
    let mut out: Vec<char> = Vec::new();
    push_str(&mut out, "[cargo test]\n");
    push_joined(&mut out, &kept, "\n");
    string_of(&out)
}

// ---------------------------------------------------------------------------
// build, check
// ---------------------------------------------------------------------------

/// `l` reports an error.
pub open spec fn is_build_error(l: Seq<char>) -> bool {
    starts_with(l, "error"@)
}

/// `l` reports a warning, other than one about something unused.
pub open spec fn is_build_warning(l: Seq<char>) -> bool {
    starts_with(l, "warning"@) && !starts_with(l, "warning: unused"@)
}

/// `l` is neither of the two and tells how the build went.
pub open spec fn is_build_note(l: Seq<char>) -> bool {
    &&& !is_build_error(l)
    &&& !is_build_warning(l)
    &&& (contains(l, "Finished"@) || contains(l, "could not compile"@) || (contains(
        l,
        "Compiling"@,
    ) && contains(l, "v"@)))
}

/// The line that gives the number of items under a label.
pub open spec fn count_line(label: Seq<char>, n: nat) -> Seq<char> {
    "["@ + label + ": "@ + decimal(n) + "]\n"@
}

/// What a build summary holds of the errors: their number, and all of them.
pub open spec fn errors_part(errors: Seq<Seq<char>>) -> Seq<char> {
    if errors.len() > 0 {
        count_line("errors"@, errors.len()) + block(errors, "  "@)
    } else {
        Seq::empty()
    }
}

/// What a build summary holds of the warnings: their number, the first ten
/// of them, and a note on the rest.
pub open spec fn warnings_part(warnings: Seq<Seq<char>>) -> Seq<char> {
    if warnings.len() > 0 {
        count_line("warnings"@, warnings.len()) + listing(warnings, 10)
    } else {
        Seq::empty()
    }
}

/// The summary of a build: the notes as they stand, then all errors, then
/// the first ten warnings; the truncation of the output where it holds none
/// of them.
pub open spec fn build_summary(raw: Seq<char>) -> Seq<char> {
    let ls = lines(raw);
    let errors = ls.filter(|l: Seq<char>| is_build_error(l));
    let warnings = ls.filter(|l: Seq<char>| is_build_warning(l));
    let notes = ls.filter(|l: Seq<char>| is_build_note(l));
    if errors.len() == 0 && warnings.len() == 0 && notes.len() == 0 {
        truncated(raw)
    } else {
        block(notes, ""@) + errors_part(errors) + warnings_part(warnings)
    }
}

fn build_error(l: &Vec<char>) -> (b: bool)
    ensures
        b == is_build_error(l@),
{
    has_prefix(l, "error")
}

fn build_warning(l: &Vec<char>) -> (b: bool)
    ensures
        b == is_build_warning(l@),
{
    has_prefix(l, "warning") && !has_prefix(l, "warning: unused")
}

fn build_note(l: &Vec<char>) -> (b: bool)
    ensures
        b == is_build_note(l@),
{
    !build_error(l) && !build_warning(l) && (has_substr(l, "Finished") || has_substr(
        l,
        "could not compile",
    ) || (has_substr(l, "Compiling") && has_substr(l, "v")))
}

fn push_count_line(out: &mut Vec<char>, label: &str, n: usize)
    ensures
        final(out)@ == old(out)@ + count_line(label@, n as nat),
{
    push_str(out, "[");
    push_str(out, label);
    push_str(out, ": ");
    push_decimal(out, n);
    push_str(out, "]\n");
    assert(out@ =~= old(out)@ + ("["@ + label@ + ": "@ + decimal(n as nat) + "]\n"@));
}

/// Compress `cargo build` and `cargo check`: keep errors and a summary of
/// the warnings.
pub fn compress_build(raw: &str) -> (out: String)
    ensures
        out@ == build_summary(raw@),
{
    let chars = chars_of(raw);
    let ls = split_lines(&chars);
    let errors = select(&ls, build_error, Ghost(|l: Seq<char>| is_build_error(l)));
    let warnings = select(&ls, build_warning, Ghost(|l: Seq<char>| is_build_warning(l)));
    let notes = select(&ls, build_note, Ghost(|l: Seq<char>| is_build_note(l)));
    if errors.len() == 0 && warnings.len() == 0 && notes.len() == 0 {
        return truncate(raw);
    }
    let mut out: Vec<char> = Vec::new();
    assert(first_n(views(notes@), notes.len() as nat) =~= views(notes@));
    push_block(&mut out, &notes, notes.len(), "");
    if errors.len() > 0 {
        push_count_line(&mut out, "errors", errors.len());
        assert(first_n(views(errors@), errors.len() as nat) =~= views(errors@));
        push_block(&mut out, &errors, errors.len(), "  ");
    }
    assert(out@ =~= block(views(notes@), ""@) + errors_part(views(errors@)));
    if warnings.len() > 0 {
        push_count_line(&mut out, "warnings", warnings.len());
        push_listing(&mut out, &warnings, 10);
    }
    assert(out@ =~= build_summary(raw@));
    string_of(&out)
}

// ---------------------------------------------------------------------------
// clippy
// ---------------------------------------------------------------------------

/// `l` opens a diagnostic.
pub open spec fn is_diagnostic(l: Seq<char>) -> bool {
    starts_with(l, "warning:"@) || starts_with(l, "error:"@)
}

/// The summary of a lint run: how many diagnostics there are, and the first
/// thirty; the truncation of the output where there is none.
pub open spec fn clippy_summary(raw: Seq<char>) -> Seq<char> {
    let lints = lines(raw).filter(|l: Seq<char>| is_diagnostic(l));
    if lints.len() == 0 {
        truncated(raw)
    } else {
        "[clippy: "@ + decimal(lints.len()) + " diagnostics]\n"@ + listing(lints, 30)
    }
}

fn diagnostic(l: &Vec<char>) -> (b: bool)
    ensures
        b == is_diagnostic(l@),
{
    has_prefix(l, "warning:") || has_prefix(l, "error:")
}

/// Compress `cargo clippy`: group diagnostics.
pub fn compress_clippy(raw: &str) -> (out: String)
    ensures
        out@ == clippy_summary(raw@),
{
    let chars = chars_of(raw);
    let ls = split_lines(&chars);
    let lints = select(&ls, diagnostic, Ghost(|l: Seq<char>| is_diagnostic(l)));
    if lints.len() == 0 {
        return truncate(raw);
    }
    let mut out: Vec<char> = Vec::new();
    push_str(&mut out, "[clippy: ");
    push_decimal(&mut out, lints.len());
    push_str(&mut out, " diagnostics]\n");
    push_listing(&mut out, &lints, 30);
    assert(out@ =~= clippy_summary(raw@));
    string_of(&out)
}

// ---------------------------------------------------------------------------
// fmt
// ---------------------------------------------------------------------------

/// `l` names a file that is not formatted.
pub open spec fn is_unformatted(l: Seq<char>) -> bool {
    starts_with(l, "Diff in"@) || starts_with(l, "Would reformat"@)
}

/// The summary of a format check: a note if the output is blank; else how
/// many files need formatting, and the first twenty; else the truncation of
/// the output.
pub open spec fn fmt_summary(raw: Seq<char>) -> Seq<char> {
    let diffs = lines(raw).filter(|l: Seq<char>| is_unformatted(l));
    if is_blank(raw) {
        "[cargo fmt] clean"@
    } else if diffs.len() > 0 {
        "[cargo fmt] "@ + decimal(diffs.len()) + " files need formatting\n"@ + block(
            first_n(diffs, 20),
            "  "@,
        )
    } else {
        truncated(raw)
    }
}

fn unformatted(l: &Vec<char>) -> (b: bool)
    ensures
        b == is_unformatted(l@),
{
    has_prefix(l, "Diff in") || has_prefix(l, "Would reformat")
}

/// Compress `cargo fmt`: show the files to reformat, or confirm that there
/// are none.
pub fn compress_fmt(raw: &str) -> (out: String)
    ensures
        out@ == fmt_summary(raw@),
{
    let chars = chars_of(raw);
    if blank(&chars) {
        return "[cargo fmt] clean".to_owned();
    }
    let ls = split_lines(&chars);
    let diffs = select(&ls, unformatted, Ghost(|l: Seq<char>| is_unformatted(l)));
    if diffs.len() == 0 {
        return truncate(raw);
    }
    let mut out: Vec<char> = Vec::new();
    push_str(&mut out, "[cargo fmt] ");
    push_decimal(&mut out, diffs.len());
    push_str(&mut out, " files need formatting\n");
    push_block(&mut out, &diffs, 20, "  ");
    assert(out@ =~= fmt_summary(raw@));
    string_of(&out)
}

// ---------------------------------------------------------------------------
// run
// ---------------------------------------------------------------------------

/// `l` belongs to the program's own output, not to the build before it.
pub open spec fn is_program_output(l: Seq<char>) -> bool {
    let t = trim(l);
    &&& !starts_with(t, "Compiling"@)
    &&& !starts_with(t, "Downloading"@)
    &&& !starts_with(t, "Fresh"@)
    &&& !starts_with(t, "Finished"@)
    &&& !starts_with(t, "Running"@)
}

/// The summary of a run: the truncation of the program's own output, or a
/// note where it printed nothing.
pub open spec fn run_summary(raw: Seq<char>) -> Seq<char> {
    let kept = lines(raw).filter(|l: Seq<char>| is_program_output(l));
    if kept.len() == 0 {
        "[cargo run] ok"@
    } else {
        truncated(join(kept, "\n"@))
    }
}

fn program_output(l: &Vec<char>) -> (b: bool)
    ensures
        b == is_program_output(l@),
{
    let t = trimmed(l);
    !has_prefix(&t, "Compiling") && !has_prefix(&t, "Downloading") && !has_prefix(&t, "Fresh")
        && !has_prefix(&t, "Finished") && !has_prefix(&t, "Running")
}

/// Compress `cargo run`: keep program output, strip compilation noise.
pub fn compress_run(raw: &str) -> (out: String)
    ensures
        out@ == run_summary(raw@),
{
    let chars = chars_of(raw);
    let ls = split_lines(&chars);
    let kept = select(&ls, program_output, Ghost(|l: Seq<char>| is_program_output(l)));
    if kept.len() == 0 {
        return "[cargo run] ok".to_owned();
    }
    let out = truncate_joined(&kept);
    string_of(&out)
}

// ---------------------------------------------------------------------------
// bench
// ---------------------------------------------------------------------------

/// `l` gives the result of a benchmark.
pub open spec fn is_bench_result(l: Seq<char>) -> bool {
    starts_with(l, "test "@) && contains(l, "bench:"@)
}

/// `l` gives the totals of the run.
pub open spec fn is_bench_total(l: Seq<char>) -> bool {
    !is_bench_result(l) && starts_with(l, "test result:"@)
}

/// The summary of a benchmark run: how many results there are, the first
/// thirty, and the last line of totals; the truncation of the output where
/// it holds no result.
pub open spec fn bench_summary(raw: Seq<char>) -> Seq<char> {
    let ls = lines(raw);
    let results = ls.filter(|l: Seq<char>| is_bench_result(l));
    if results.len() == 0 {
        truncated(raw)
    } else {
        "[cargo bench] "@ + decimal(results.len()) + " benchmarks\n"@ + listing(results, 30)
            + optional_line(last_of(ls, |l: Seq<char>| is_bench_total(l)))
    }
}

fn bench_result(l: &Vec<char>) -> (b: bool)
    ensures
        b == is_bench_result(l@),
{
    has_prefix(l, "test ") && has_substr(l, "bench:")
}

fn bench_total(l: &Vec<char>) -> (b: bool)
    ensures
        b == is_bench_total(l@),
{
    !bench_result(l) && has_prefix(l, "test result:")
}

/// Compress `cargo bench`: keep results summary.
pub fn compress_bench(raw: &str) -> (out: String)
    ensures
        out@ == bench_summary(raw@),
{
    let chars = chars_of(raw);
    let ls = split_lines(&chars);
    let results = select(&ls, bench_result, Ghost(|l: Seq<char>| is_bench_result(l)));
    if results.len() == 0 {
        return truncate(raw);
    }
    let total = find_last(&ls, bench_total, Ghost(|l: Seq<char>| is_bench_total(l)));
    let mut out: Vec<char> = Vec::new();
    push_str(&mut out, "[cargo bench] ");
    push_decimal(&mut out, results.len());
    push_str(&mut out, " benchmarks\n");
    push_listing(&mut out, &results, 30);
    push_optional_line(&mut out, &total);
    assert(out@ =~= bench_summary(raw@));
    string_of(&out)
}

// ---------------------------------------------------------------------------
// doc
// ---------------------------------------------------------------------------

/// `l` names a crate that is documented.
pub open spec fn is_documenting(l: Seq<char>) -> bool {
    starts_with(trim(l), "Documenting"@)
}

/// `l` says that the command has finished.
pub open spec fn is_finished(l: Seq<char>) -> bool {
    starts_with(trim(l), "Finished"@)
}

/// `l` opens a warning.
pub open spec fn is_doc_warning(l: Seq<char>) -> bool {
    starts_with(trim(l), "warning:"@)
}

/// The summary of a documentation build: how many crates were documented,
/// how many warnings there were, and the last line that says it finished;
/// the truncation of the output where it holds none of them.
pub open spec fn doc_summary(raw: Seq<char>) -> Seq<char> {
    let ls = lines(raw);
    let crates = ls.filter(|l: Seq<char>| is_documenting(l));
    let warnings = ls.filter(|l: Seq<char>| is_doc_warning(l));
    let finished = last_of(ls, |l: Seq<char>| is_finished(l));
    if crates.len() == 0 && warnings.len() == 0 && finished is None {
        truncated(raw)
    } else {
        count_note("[cargo doc] "@, crates.len(), " crates\n"@) + count_note(
            "[warnings: "@,
            warnings.len(),
            "]\n"@,
        ) + optional_line(trimmed_line(finished))
    }
}

fn documenting(l: &Vec<char>) -> (b: bool)
    ensures
        b == is_documenting(l@),
{
    let t = trimmed(l);
    has_prefix(&t, "Documenting")
}

fn finished(l: &Vec<char>) -> (b: bool)
    ensures
        b == is_finished(l@),
{
    let t = trimmed(l);
    has_prefix(&t, "Finished")
}

fn doc_warning(l: &Vec<char>) -> (b: bool)
    ensures
        b == is_doc_warning(l@),
{
    let t = trimmed(l);
    has_prefix(&t, "warning:")
}

/// Compress `cargo doc`: just keep the summary.
pub fn compress_doc(raw: &str) -> (out: String)
    ensures
        out@ == doc_summary(raw@),
{
    let chars = chars_of(raw);
    let ls = split_lines(&chars);
    let crates = select(&ls, documenting, Ghost(|l: Seq<char>| is_documenting(l)));
    let warnings = select(&ls, doc_warning, Ghost(|l: Seq<char>| is_doc_warning(l)));
    let last = find_last(&ls, finished, Ghost(|l: Seq<char>| is_finished(l)));
    if crates.len() == 0 && warnings.len() == 0 && last.is_none() {
        return truncate(raw);
    }
    let mut out: Vec<char> = Vec::new();
    push_count_note(&mut out, "[cargo doc] ", crates.len(), " crates\n");
    push_count_note(&mut out, "[warnings: ", warnings.len(), "]\n");
    let shown = trim_optional(&last);
    push_optional_line(&mut out, &shown);
    assert(out@ =~= doc_summary(raw@));
    string_of(&out)
}

// ---------------------------------------------------------------------------
// add, remove
// ---------------------------------------------------------------------------

/// `l` tells of the change itself, not of the index or of downloads.
pub open spec fn is_dep_news(l: Seq<char>) -> bool {
    let t = trim(l);
    &&& t.len() != 0
    &&& !starts_with(t, "Updating"@)
    &&& !starts_with(t, "Downloading"@)
    &&& !starts_with(t, "Downloaded"@)
}

/// The summary of a dependency change: the first ten lines that tell of it.
pub open spec fn dep_change_summary(sub: Seq<char>, raw: Seq<char>) -> Seq<char> {
    let news = lines(raw).filter(|l: Seq<char>| is_dep_news(l));
    if news.len() == 0 {
        "[cargo "@ + sub + "] ok"@
    } else {
        "[cargo "@ + sub + "]\n"@ + block(trim_each(first_n(news, 10)), "  "@)
    }
}

fn dep_news(l: &Vec<char>) -> (b: bool)
    ensures
        b == is_dep_news(l@),
{
    let t = trimmed(l);
    t.len() != 0 && !has_prefix(&t, "Updating") && !has_prefix(&t, "Downloading") && !has_prefix(
        &t,
        "Downloaded",
    )
}

/// Compress `cargo add` and `cargo remove`: show dependency changes.
pub fn compress_dep_change(sub: &str, raw: &str) -> (out: String)
    ensures
        out@ == dep_change_summary(sub@, raw@),
{
    let chars = chars_of(raw);
    let ls = split_lines(&chars);
    let news = select(&ls, dep_news, Ghost(|l: Seq<char>| is_dep_news(l)));
    let mut out: Vec<char> = Vec::new();
    push_str(&mut out, "[cargo ");
    push_str(&mut out, sub);
    if news.len() == 0 {
        push_str(&mut out, "] ok");
        assert(out@ =~= dep_change_summary(sub@, raw@));
    } else {
        push_str(&mut out, "]\n");
        let first = take_first(&news, 10);
        let shown = trim_all(&first);
        assert(first_n(views(shown@), shown.len() as nat) =~= views(shown@));
        push_block(&mut out, &shown, shown.len(), "  ");
        assert(out@ =~= dep_change_summary(sub@, raw@));
    }
    string_of(&out)
}

// ---------------------------------------------------------------------------
// update
// ---------------------------------------------------------------------------

/// `l` tells of a change to the dependency graph.
pub open spec fn is_update(l: Seq<char>) -> bool {
    let t = trim(l);
    ||| starts_with(t, "Updating"@)
    ||| starts_with(t, "Adding"@)
    ||| starts_with(t, "Removing"@)
    ||| starts_with(t, "Locking"@)
}

/// The summary of an update: how many changes there are, and the first
/// thirty; without any, a note if the output is blank, else its truncation.
pub open spec fn update_summary(raw: Seq<char>) -> Seq<char> {
    let updates = lines(raw).filter(|l: Seq<char>| is_update(l));
    if updates.len() > 0 {
        "[cargo update] "@ + decimal(updates.len()) + " changes\n"@ + listing(
            trim_each(updates),
            30,
        )
    } else if is_blank(raw) {
        "[cargo update] already up to date"@
    } else {
        truncated(raw)
    }
}

fn update(l: &Vec<char>) -> (b: bool)
    ensures
        b == is_update(l@),
{
    let t = trimmed(l);
    has_prefix(&t, "Updating") || has_prefix(&t, "Adding") || has_prefix(&t, "Removing")
        || has_prefix(&t, "Locking")
}

/// Compress `cargo update`: show updated packages.
pub fn compress_update(raw: &str) -> (out: String)
    ensures
        out@ == update_summary(raw@),
{
    let chars = chars_of(raw);
    let ls = split_lines(&chars);
    let updates = select(&ls, update, Ghost(|l: Seq<char>| is_update(l)));
    if updates.len() == 0 {
        if blank(&chars) {
            return "[cargo update] already up to date".to_owned();
        }
        return truncate(raw);
    }
    let mut out: Vec<char> = Vec::new();
    push_str(&mut out, "[cargo update] ");
    push_decimal(&mut out, updates.len());
    push_str(&mut out, " changes\n");
    let shown = trim_all(&updates);
    push_listing(&mut out, &shown, 30);
    assert(out@ =~= update_summary(raw@));
    string_of(&out)
}

// ---------------------------------------------------------------------------
// install
// ---------------------------------------------------------------------------

/// `l` tells what is, or was, installed.
pub open spec fn is_install_line(l: Seq<char>) -> bool {
    let t = trim(l);
    starts_with(t, "Installing"@) || starts_with(t, "Installed"@) || starts_with(t, "Replacing"@)
}

/// The summary of an install: the last line that tells what was installed,
/// or `ok`, and the last line that says it finished; the truncation of the
/// output where it holds neither.
pub open spec fn install_summary(raw: Seq<char>) -> Seq<char> {
    let ls = lines(raw);
    let installed = last_of(ls, |l: Seq<char>| is_install_line(l));
    let finished = last_of(ls, |l: Seq<char>| is_finished(l));
    if installed is None && finished is None {
        truncated(raw)
    } else {
        "[cargo install] "@ + (match installed {
            Some(l) => trim(l),
            None => "ok"@,
        }) + "\n"@ + optional_line(trimmed_line(finished))
    }
}

fn install_line(l: &Vec<char>) -> (b: bool)
    ensures
        b == is_install_line(l@),
{
    let t = trimmed(l);
    has_prefix(&t, "Installing") || has_prefix(&t, "Installed") || has_prefix(&t, "Replacing")
}

/// Compress `cargo install`: keep the summary.
pub fn compress_install(raw: &str) -> (out: String)
    ensures
        out@ == install_summary(raw@),
{
    let chars = chars_of(raw);
    let ls = split_lines(&chars);
    let installed = find_last(&ls, install_line, Ghost(|l: Seq<char>| is_install_line(l)));
    let last = find_last(&ls, finished, Ghost(|l: Seq<char>| is_finished(l)));
    if installed.is_none() && last.is_none() {
        return truncate(raw);
    }
    let mut out: Vec<char> = Vec::new();
    push_str(&mut out, "[cargo install] ");
    match &installed {
        Some(l) => {
            let t = trimmed(l);
            push_chars(&mut out, &t);
        },
        None => {
            push_str(&mut out, "ok");
        },
    }
    push_str(&mut out, "\n");
    let shown = trim_optional(&last);
    push_optional_line(&mut out, &shown);
    assert(out@ =~= install_summary(raw@));
    string_of(&out)
}

// ---------------------------------------------------------------------------
// publish
// ---------------------------------------------------------------------------

/// `l` tells of the upload, or of an error or a warning.
pub open spec fn is_publish_news(l: Seq<char>) -> bool {
    let t = trim(l);
    ||| starts_with(t, "Uploading"@)
    ||| starts_with(t, "Uploaded"@)
    ||| starts_with(t, "Publishing"@)
    ||| starts_with(t, "Published"@)
    ||| contains(t, "error"@)
    ||| contains(t, "warning"@)
}

/// The summary of a publish: every line that tells of it; the truncation of
/// the output where there is none.
pub open spec fn publish_summary(raw: Seq<char>) -> Seq<char> {
    let news = lines(raw).filter(|l: Seq<char>| is_publish_news(l));
    if news.len() == 0 {
        truncated(raw)
    } else {
        "[cargo publish]\n"@ + block(trim_each(news), "  "@)
    }
}

fn publish_news(l: &Vec<char>) -> (b: bool)
    ensures
        b == is_publish_news(l@),
{
    let t = trimmed(l);
    has_prefix(&t, "Uploading") || has_prefix(&t, "Uploaded") || has_prefix(&t, "Publishing")
        || has_prefix(&t, "Published") || has_substr(&t, "error") || has_substr(&t, "warning")
}

/// Compress `cargo publish`: keep the result.
pub fn compress_publish(raw: &str) -> (out: String)
    ensures
        out@ == publish_summary(raw@),
{
    let chars = chars_of(raw);
    let ls = split_lines(&chars);
    let news = select(&ls, publish_news, Ghost(|l: Seq<char>| is_publish_news(l)));
    if news.len() == 0 {
        return truncate(raw);
    }
    let mut out: Vec<char> = Vec::new();
    push_str(&mut out, "[cargo publish]\n");
    let shown = trim_all(&news);
    assert(first_n(views(shown@), shown.len() as nat) =~= views(shown@));
    push_block(&mut out, &shown, shown.len(), "  ");
    assert(out@ =~= publish_summary(raw@));
    string_of(&out)
}

// ---------------------------------------------------------------------------
// The compressor
// ---------------------------------------------------------------------------

/// The summary of the output of the subcommand `sub`.
pub open spec fn cargo_summary(raw: Seq<char>, sub: Seq<char>) -> Seq<char> {
    if sub == "test"@ || sub == "nextest"@ {
        test_summary(raw)
    } else if sub == "build"@ || sub == "check"@ {
        build_summary(raw)
    } else if sub == "clippy"@ {
        clippy_summary(raw)
    } else if sub == "fmt"@ {
        fmt_summary(raw)
    } else if sub == "run"@ {
        run_summary(raw)
    } else if sub == "bench"@ {
        bench_summary(raw)
    } else if sub == "doc"@ {
        doc_summary(raw)
    } else if sub == "add"@ || sub == "remove"@ {
        dep_change_summary(sub, raw)
    } else if sub == "update"@ {
        update_summary(raw)
    } else if sub == "install"@ {
        install_summary(raw)
    } else if sub == "publish"@ {
        publish_summary(raw)
    } else {
        truncated(raw)
    }
}

/// Pure compressor for cargo command output.
pub struct CargoCompressor;

impl Compressor for CargoCompressor {
    /// The summary for the hinted subcommand; the truncation of the raw
    /// output where the hint is missing or not known.
    open spec fn summary(&self, raw: Seq<char>, sub: Option<Seq<char>>) -> Seq<char> {
        cargo_summary(raw, hint_text(sub))
    }

    fn compress(&self, raw: &str, sub: Option<&str>) -> (out: String) {
        let name = match sub {
            Some(s) => s,
            None => "",
        };
        proof {
            reveal_strlit("");
            assert(name@ =~= hint_text(hint_view(sub)));
        }
        let key = chars_of(name);
        if is_literal(&key, "test") || is_literal(&key, "nextest") {
            compress_test(raw)
        } else if is_literal(&key, "build") || is_literal(&key, "check") {
            compress_build(raw)
        } else if is_literal(&key, "clippy") {
            compress_clippy(raw)
        } else if is_literal(&key, "fmt") {
            compress_fmt(raw)
        } else if is_literal(&key, "run") {
            compress_run(raw)
        } else if is_literal(&key, "bench") {
            compress_bench(raw)
        } else if is_literal(&key, "doc") {
            compress_doc(raw)
        } else if is_literal(&key, "add") || is_literal(&key, "remove") {
            compress_dep_change(name, raw)
        } else if is_literal(&key, "update") {
            compress_update(raw)
        } else if is_literal(&key, "install") {
            compress_install(raw)
        } else if is_literal(&key, "publish") {
            compress_publish(raw)
        } else {
            truncate(raw)
        }
    }
}

// ---------------------------------------------------------------------------
// Falling back
// ---------------------------------------------------------------------------

/// Whether the summary for the subcommand `sub` looks for the line `l`.
pub open spec fn cargo_marker(sub: Seq<char>, l: Seq<char>) -> bool {
    if sub == "test"@ || sub == "nextest"@ {
        opens_failure(l) || is_test_summary(l)
    } else if sub == "build"@ || sub == "check"@ {
        is_build_error(l) || is_build_warning(l) || is_build_note(l)
    } else if sub == "clippy"@ {
        is_diagnostic(l)
    } else if sub == "fmt"@ {
        is_unformatted(l)
    } else if sub == "bench"@ {
        is_bench_result(l)
    } else if sub == "doc"@ {
        is_documenting(l) || is_doc_warning(l) || is_finished(l)
    } else if sub == "update"@ {
        is_update(l)
    } else if sub == "install"@ {
        is_install_line(l) || is_finished(l)
    } else if sub == "publish"@ {
        is_publish_news(l)
    } else {
        false
    }
}

/// The subcommands whose summary is a selection of lines even where no
/// line is marked: `run`, `add` and `remove`.
pub open spec fn cargo_selects(sub: Seq<char>) -> bool {
    sub == "run"@ || sub == "add"@ || sub == "remove"@
}

/// Without a line that opens a failure report or belongs to the summary,
/// nothing of a test run is kept.
pub proof fn lemma_test_kept_none(ls: Seq<Seq<char>>)
    requires
        forall|i: int|
            0 <= i < ls.len() ==> !opens_failure(#[trigger] ls[i]) && !is_test_summary(ls[i]),
    ensures
        !in_failure_after(ls),
        test_kept(ls) == Seq::<Seq<char>>::empty(),
    decreases ls.len(),
{
    if ls.len() > 0 {
        let before = ls.drop_last();
        assert forall|i: int| 0 <= i < before.len() implies !opens_failure(#[trigger] before[i])
            && !is_test_summary(before[i]) by {
            assert(before[i] == ls[i]);
        }
        lemma_test_kept_none(before);
        assert(!opens_failure(ls[ls.len() - 1]) && !is_test_summary(ls[ls.len() - 1]));
    }
}

/// Fallback: for output in which no line is marked for the subcommand, the
/// summary is the truncation of the output. This holds of every
/// subcommand, known or not, but of those that select lines; for `fmt`
/// and `update`, which answer blank output with a note, the output must
/// not be blank.
pub proof fn lemma_cargo_fallback(raw: Seq<char>, sub: Seq<char>)
    requires
        !cargo_selects(sub),
        sub == "fmt"@ || sub == "update"@ ==> !is_blank(raw),
        forall|i: int| 0 <= i < lines(raw).len() ==> !cargo_marker(sub, #[trigger] lines(raw)[i]),
    ensures
        cargo_summary(raw, sub) == truncated(raw),
{
    let ls = lines(raw);
    if sub == "test"@ || sub == "nextest"@ {
        lemma_test_kept_none(ls);
    } else if sub == "build"@ || sub == "check"@ {
        lemma_filter_none(ls, |l: Seq<char>| is_build_error(l));
        lemma_filter_none(ls, |l: Seq<char>| is_build_warning(l));
        lemma_filter_none(ls, |l: Seq<char>| is_build_note(l));
    } else if sub == "clippy"@ {
        lemma_filter_none(ls, |l: Seq<char>| is_diagnostic(l));
    } else if sub == "fmt"@ {
        lemma_filter_none(ls, |l: Seq<char>| is_unformatted(l));
    } else if sub == "bench"@ {
        lemma_filter_none(ls, |l: Seq<char>| is_bench_result(l));
    } else if sub == "doc"@ {
        lemma_filter_none(ls, |l: Seq<char>| is_documenting(l));
        lemma_filter_none(ls, |l: Seq<char>| is_doc_warning(l));
        lemma_filter_none(ls, |l: Seq<char>| is_finished(l));
    } else if sub == "update"@ {
        lemma_filter_none(ls, |l: Seq<char>| is_update(l));
    } else if sub == "install"@ {
        lemma_filter_none(ls, |l: Seq<char>| is_install_line(l));
        lemma_filter_none(ls, |l: Seq<char>| is_finished(l));
    } else if sub == "publish"@ {
        lemma_filter_none(ls, |l: Seq<char>| is_publish_news(l));
    }
}

/// The summary is never empty, unless the output is empty or a line ending
/// alone, or, for `run`, the program's own output is.
pub proof fn lemma_cargo_summary_not_empty(raw: Seq<char>, sub: Seq<char>)
    requires
        !is_bare(raw),
        sub == "run"@ ==> !is_bare(
            join(lines(raw).filter(|l: Seq<char>| is_program_output(l)), "\n"@),
        ),
    ensures
        cargo_summary(raw, sub).len() > 0,
{
    let ls = lines(raw);
    if truncated(raw).len() == 0 {
        lemma_truncated_empty(raw, MAX_LINES as nat, MAX_LINE_LEN as nat);
    }
    if sub == "test"@ || sub == "nextest"@ {
        reveal_strlit("[cargo test]\n");
    } else if sub == "build"@ || sub == "check"@ {
        reveal_strlit("[");
        let notes = ls.filter(|l: Seq<char>| is_build_note(l));
        if notes.len() > 0 {
            assert(block(notes, ""@).len() > 0);
        }
    } else if sub == "clippy"@ {
        reveal_strlit("[clippy: ");
    } else if sub == "fmt"@ {
        reveal_strlit("[cargo fmt] ");
        reveal_strlit("[cargo fmt] clean");
    } else if sub == "run"@ {
        reveal_strlit("[cargo run] ok");
        let kept = ls.filter(|l: Seq<char>| is_program_output(l));
        if truncated(join(kept, "\n"@)).len() == 0 {
            lemma_truncated_empty(join(kept, "\n"@), MAX_LINES as nat, MAX_LINE_LEN as nat);
        }
    } else if sub == "bench"@ {
        reveal_strlit("[cargo bench] ");
    } else if sub == "doc"@ {
        reveal_strlit("[cargo doc] ");
        reveal_strlit("[warnings: ");
        reveal_strlit("\n");
    } else if sub == "add"@ || sub == "remove"@ {
        reveal_strlit("[cargo ");
    } else if sub == "update"@ {
        reveal_strlit("[cargo update] ");
        reveal_strlit("[cargo update] already up to date");
    } else if sub == "install"@ {
        reveal_strlit("[cargo install] ");
    } else if sub == "publish"@ {
        reveal_strlit("[cargo publish]\n");
    }
}

} // verus!
