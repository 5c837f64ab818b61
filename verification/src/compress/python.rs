//! Summaries of the output of Python tools: pytest, ruff, mypy, pip and
//! uv.
use crate::compress::{hint_text, hint_view, Compressor};
use crate::listing::{
    block, count_note, find_first, find_last, first_n, first_of, last_of, lemma_filter_none,
    listing, optional_line, push_block, push_count_note, push_listing, push_optional_line,
    select, trim_all, trim_each, trim_optional, trimmed_line,
};
use crate::text::buffer::{push_chars, push_str};
use crate::text::convert::{chars_of, string_of, views};
use crate::text::lines::{is_bare, join, lines, push_joined, split_lines};
use crate::text::matching::{
    contains, ends_with, has_first_char, has_prefix, has_substr, has_suffix, is_literal,
    starts_with, starts_with_char,
};
use crate::text::number::{decimal, push_decimal};
use crate::text::space::{blank, is_blank, trim, trimmed};
use crate::truncate::{
    dedup_chars, deduped, lemma_truncated_empty, truncate, truncated, MAX_LINES, MAX_LINE_LEN,
};
use vstd::prelude::*;

verus! {

// ---------------------------------------------------------------------------
// pytest
// ---------------------------------------------------------------------------

/// The most lines kept of one failure report.
pub const MAX_FAILURE_LINES: usize = 20;

/// `l` is a summary line: a rule that tells of passes, failures or errors.
pub open spec fn is_run_summary(l: Seq<char>) -> bool {
    starts_with(l, "="@) && (contains(l, "passed"@) || contains(l, "failed"@) || contains(
        l,
        "error"@,
    ))
}

/// `l` is the rule that opens the failure reports.
pub open spec fn is_failures_header(l: Seq<char>) -> bool {
    !is_run_summary(l) && contains(l, "FAILURES"@) && starts_with(l, "="@)
}

/// `l` is the title of one failure report.
pub open spec fn is_failure_title(l: Seq<char>) -> bool {
    !is_run_summary(l) && !is_failures_header(l) && starts_with(l, "___"@) && ends_with(
        l,
        "___"@,
    )
}

/// `l` is a structural line: summary, header or title.
pub open spec fn is_landmark(l: Seq<char>) -> bool {
    is_run_summary(l) || is_failures_header(l) || is_failure_title(l)
}

/// `l` is a line of the short test summary.
pub open spec fn is_short_result(l: Seq<char>) -> bool {
    starts_with(l, "FAILED "@) || starts_with(l, "ERROR "@)
}

/// Where a scan of test output stands: whether it is inside a failure
/// report, and how many lines of the report it has read.
pub ghost struct Scan {
    pub in_failure: bool,
    pub failure_lines: nat,
}

/// `l` ends the failure report of which it is line number `n`: a rule does,
/// and so does an empty line behind at least two others.
///
/// This is an approximation. A report that holds an empty line of its own
/// is taken to end there, and what follows of it is dropped.
pub open spec fn ends_failure(l: Seq<char>, n: nat) -> bool {
    starts_with(l, "="@) || (l.len() == 0 && n > 2)
}

/// The state of the scan after the line `l`.
pub open spec fn scan_step(s: Scan, l: Seq<char>) -> Scan {
    if is_run_summary(l) {
        s
    } else if is_failures_header(l) {
        Scan { in_failure: true, failure_lines: s.failure_lines }
    } else if is_failure_title(l) {
        Scan { in_failure: true, failure_lines: 0 }
    } else if s.in_failure {
        Scan {
            in_failure: !ends_failure(l, s.failure_lines + 1),
            failure_lines: s.failure_lines + 1,
        }
    } else {
        s
    }
}

/// The state of the scan after the lines `ls`.
pub open spec fn scan_after(ls: Seq<Seq<char>>) -> Scan
    decreases ls.len(),
{
    if ls.len() == 0 {
        Scan { in_failure: false, failure_lines: 0 }
    } else {
        scan_step(scan_after(ls.drop_last()), ls.last())
    }
}

/// Whether the line `l`, read in state `s`, is kept: landmarks always, the
/// first lines of a failure report, and outside of one the short results.
pub open spec fn scan_keeps(s: Scan, l: Seq<char>) -> bool {
    if is_landmark(l) {
        true
    } else if s.in_failure {
        s.failure_lines + 1 <= MAX_FAILURE_LINES
    } else {
        is_short_result(l)
    }
}

/// The lines of `ls` that the summary of a test run keeps.
pub open spec fn pytest_kept(ls: Seq<Seq<char>>) -> Seq<Seq<char>>
    decreases ls.len(),
{
    if ls.len() == 0 {
        Seq::empty()
    } else {
        let before = ls.drop_last();
        if scan_keeps(scan_after(before), ls.last()) {
            pytest_kept(before).push(ls.last())
        } else {
            pytest_kept(before)
        }
    }
}

/// The summary of a test run: what is kept of it, or its truncation where
/// nothing is.
pub open spec fn pytest_summary(raw: Seq<char>) -> Seq<char> {
    let kept = pytest_kept(lines(raw));
    if kept.len() == 0 {
        truncated(raw)
    } else {
        "[pytest]\n"@ + join(kept, "\n"@)
    }
}

fn run_summary_line(l: &Vec<char>) -> (b: bool)
    ensures
        b == is_run_summary(l@),
{
    has_prefix(l, "=") && (has_substr(l, "passed") || has_substr(l, "failed") || has_substr(
        l,
        "error",
    ))
}

fn failures_header(l: &Vec<char>) -> (b: bool)
    ensures
        b == is_failures_header(l@),
{
    !run_summary_line(l) && has_substr(l, "FAILURES") && has_prefix(l, "=")
}

fn failure_title(l: &Vec<char>) -> (b: bool)
    ensures
        b == is_failure_title(l@),
{
    !run_summary_line(l) && !failures_header(l) && has_prefix(l, "___") && has_suffix(l, "___")
}

/// Where a scan of test output stands, as it is computed.
pub struct ScanState {
    pub in_failure: bool,
    pub failure_lines: usize,
}

impl View for ScanState {
    type V = Scan;

    open spec fn view(&self) -> Scan {
        Scan { in_failure: self.in_failure, failure_lines: self.failure_lines as nat }
    }
}

/// Reads one line: the state behind it, and whether the line is kept.
fn scan_line(state: ScanState, line: &Vec<char>) -> (r: (ScanState, bool))
    requires
        state.failure_lines < usize::MAX,
    ensures
        r.0@ == scan_step(state@, line@),
        r.1 == scan_keeps(state@, line@),
{
    if run_summary_line(line) {
        (state, true)
    } else if failures_header(line) {
        (ScanState { in_failure: true, failure_lines: state.failure_lines }, true)
    } else if failure_title(line) {
        (ScanState { in_failure: true, failure_lines: 0 }, true)
    } else if state.in_failure {
        let read = state.failure_lines + 1;
        let ends = has_prefix(line, "=") || (line.len() == 0 && read > 2);
        (ScanState { in_failure: !ends, failure_lines: read }, read <= MAX_FAILURE_LINES)
    } else {
        (state, has_prefix(line, "FAILED ") || has_prefix(line, "ERROR "))
    }
}

/// Compress pytest output: keep only failures and the summary lines.
pub fn compress_pytest(raw: &str) -> (out: String)
    ensures
        out@ == pytest_summary(raw@),
{
    let chars = chars_of(raw);
    let ls = split_lines(&chars);
    let mut kept: Vec<Vec<char>> = Vec::new();
    let mut state = ScanState { in_failure: false, failure_lines: 0 };
    let mut i: usize = 0;
    proof {
        assert(views(ls@).take(0) =~= Seq::empty());
        assert(views(kept@) =~= Seq::empty());
    }
    while i < ls.len()
        invariant
            i <= ls.len(),
            state.failure_lines <= i,
            state@ == scan_after(views(ls@).take(i as int)),
            views(kept@) == pytest_kept(views(ls@).take(i as int)),
        decreases ls.len() - i,
    {
        let ghost seen = views(ls@).take(i as int);
        let ghost next = views(ls@).take(i + 1);
        let ghost before = views(kept@);
        proof {
            assert(next.drop_last() =~= seen);
            assert(next.last() == ls@[i as int]@);
        }
        let (after, keep) = scan_line(state, &ls[i]);
        if keep {
            kept.push(ls[i].clone());
            assert(views(kept@) =~= before.push(ls@[i as int]@));
        }
        state = after;
        i += 1;
    }
    assert(views(ls@).take(ls.len() as int) =~= views(ls@));
    if kept.len() == 0 {
        return truncate(raw);
    }
    let mut out: Vec<char> = Vec::new();
    push_str(&mut out, "[pytest]\n");
    push_joined(&mut out, &kept, "\n");
    string_of(&out)
}

// ---------------------------------------------------------------------------
// ruff
// ---------------------------------------------------------------------------

/// `l` sums up what the linter found or did.
pub open spec fn is_ruff_summary(l: Seq<char>) -> bool {
    let t = trim(l);
    ||| starts_with(t, "Found "@)
    ||| starts_with(t, "All checks"@)
    ||| starts_with(t, "Would reformat"@)
    ||| starts_with(t, "reformatted"@)
}

/// `l` reports an issue at a place in a Python file.
pub open spec fn is_ruff_issue(l: Seq<char>) -> bool {
    let t = trim(l);
    !is_ruff_summary(l) && t.len() != 0 && (contains(t, ".py:"@) || contains(t, ".pyi:"@))
}

/// The summary of a lint run: the linter's own last summary line, or the
/// number of issues, and the first thirty issues; a note where the output
/// is blank.
pub open spec fn ruff_summary(raw: Seq<char>) -> Seq<char> {
    let ls = lines(raw);
    let issues = ls.filter(|l: Seq<char>| is_ruff_issue(l));
    if is_blank(raw) {
        "[ruff] clean"@
    } else {
        "[ruff] "@ + (match last_of(ls, |l: Seq<char>| is_ruff_summary(l)) {
            Some(s) => trim(s),
            None => decimal(issues.len()) + " issues"@,
        }) + "\n"@ + listing(trim_each(issues), 30)
    }
}

fn ruff_summary_line(l: &Vec<char>) -> (b: bool)
    ensures
        b == is_ruff_summary(l@),
{
    let t = trimmed(l);
    has_prefix(&t, "Found ") || has_prefix(&t, "All checks") || has_prefix(&t, "Would reformat")
        || has_prefix(&t, "reformatted")
}

fn ruff_issue(l: &Vec<char>) -> (b: bool)
    ensures
        b == is_ruff_issue(l@),
{
    let t = trimmed(l);
    !ruff_summary_line(l) && t.len() != 0 && (has_substr(&t, ".py:") || has_substr(&t, ".pyi:"))
}

/// Compress the output of `ruff check` and `ruff format`.
pub fn compress_ruff(raw: &str) -> (out: String)
    ensures
        out@ == ruff_summary(raw@),
{
    let chars = chars_of(raw);
    if blank(&chars) {
        return "[ruff] clean".to_owned();
    }
    let ls = split_lines(&chars);
    let issues = select(&ls, ruff_issue, Ghost(|l: Seq<char>| is_ruff_issue(l)));
    let summary = find_last(&ls, ruff_summary_line, Ghost(|l: Seq<char>| is_ruff_summary(l)));
    let mut out: Vec<char> = Vec::new();
    push_str(&mut out, "[ruff] ");
    match &summary {
        Some(s) => {
            let t = trimmed(s);
            push_chars(&mut out, &t);
        },
        None => {
            push_decimal(&mut out, issues.len());
            push_str(&mut out, " issues");
            assert(out@ =~= "[ruff] "@ + (decimal(issues@.len()) + " issues"@));
        },
    }
    push_str(&mut out, "\n");
    let shown = trim_all(&issues);
    push_listing(&mut out, &shown, 30);
    assert(out@ =~= ruff_summary(raw@));
    string_of(&out)
}

// ---------------------------------------------------------------------------
// mypy
// ---------------------------------------------------------------------------

/// `l` sums up what mypy found.
pub open spec fn is_mypy_summary(l: Seq<char>) -> bool {
    let t = trim(l);
    starts_with(t, "Found "@) || starts_with(t, "Success"@)
}

/// `l` reports an error, or a note to one.
pub open spec fn is_mypy_error(l: Seq<char>) -> bool {
    let t = trim(l);
    !is_mypy_summary(l) && (contains(t, ": error:"@) || contains(t, ": note:"@))
}

/// The summary of a type check: how many errors and notes there are, the
/// first thirty, and mypy's own last summary line; without any, that
/// summary line alone, or the truncation of the output.
pub open spec fn mypy_summary(raw: Seq<char>) -> Seq<char> {
    let ls = lines(raw);
    let errors = ls.filter(|l: Seq<char>| is_mypy_error(l));
    let summary = last_of(ls, |l: Seq<char>| is_mypy_summary(l));
    if errors.len() > 0 {
        "[mypy] "@ + decimal(errors.len()) + " errors\n"@ + listing(trim_each(errors), 30)
            + optional_line(trimmed_line(summary))
    } else {
        match summary {
            Some(s) => "[mypy] "@ + trim(s),
            None => truncated(raw),
        }
    }
}

fn mypy_summary_line(l: &Vec<char>) -> (b: bool)
    ensures
        b == is_mypy_summary(l@),
{
    let t = trimmed(l);
    has_prefix(&t, "Found ") || has_prefix(&t, "Success")
}

fn mypy_error(l: &Vec<char>) -> (b: bool)
    ensures
        b == is_mypy_error(l@),
{
    let t = trimmed(l);
    !mypy_summary_line(l) && (has_substr(&t, ": error:") || has_substr(&t, ": note:"))
}

/// Compress mypy output: group errors, keep the summary.
pub fn compress_mypy(raw: &str) -> (out: String)
    ensures
        out@ == mypy_summary(raw@),
{
    let chars = chars_of(raw);
    let ls = split_lines(&chars);
    let errors = select(&ls, mypy_error, Ghost(|l: Seq<char>| is_mypy_error(l)));
    let summary = find_last(&ls, mypy_summary_line, Ghost(|l: Seq<char>| is_mypy_summary(l)));
    let mut out: Vec<char> = Vec::new();
    if errors.len() == 0 {
        match &summary {
            Some(s) => {
                push_str(&mut out, "[mypy] ");
                let t = trimmed(s);
                push_chars(&mut out, &t);
                return string_of(&out);
            },
            None => {
                return truncate(raw);
            },
        }
    }
    push_str(&mut out, "[mypy] ");
    push_decimal(&mut out, errors.len());
    push_str(&mut out, " errors\n");
    let shown = trim_all(&errors);
    push_listing(&mut out, &shown, 30);
    let last = trim_optional(&summary);
    push_optional_line(&mut out, &last);
    assert(out@ =~= mypy_summary(raw@));
    string_of(&out)
}

// ---------------------------------------------------------------------------
// pip install
// ---------------------------------------------------------------------------

/// `l` sums up what was installed.
pub open spec fn is_pip_summary(l: Seq<char>) -> bool {
    starts_with(trim(l), "Successfully installed"@)
}

/// `l` says that a requirement was met already.
pub open spec fn is_pip_satisfied(l: Seq<char>) -> bool {
    let t = trim(l);
    !is_pip_summary(l) && (contains(t, "already satisfied"@) || contains(t, "Already installed"@))
}

/// `l` names a package that is, or was, installed.
pub open spec fn is_pip_installed(l: Seq<char>) -> bool {
    let t = trim(l);
    !is_pip_summary(l) && !is_pip_satisfied(l) && (starts_with(t, "Installing"@) || starts_with(
        t,
        "Installed"@,
    ))
}

/// The summary of an install: the installer's own last summary line, or the
/// number of packages installed with the first twenty; then the number of
/// requirements that were met already. The truncation of the output where
/// it holds none of them.
pub open spec fn pip_install_summary(raw: Seq<char>) -> Seq<char> {
    let ls = lines(raw);
    let summary = last_of(ls, |l: Seq<char>| is_pip_summary(l));
    let installed = ls.filter(|l: Seq<char>| is_pip_installed(l));
    let satisfied = ls.filter(|l: Seq<char>| is_pip_satisfied(l));
    if summary is None && installed.len() == 0 && satisfied.len() == 0 {
        truncated(raw)
    } else {
        (match summary {
            Some(s) => "[pip] "@ + trim(s) + "\n"@,
            None => if installed.len() > 0 {
                "[pip] installed "@ + decimal(installed.len()) + "\n"@ + block(
                    first_n(trim_each(installed), 20),
                    "  "@,
                )
            } else {
                Seq::empty()
            },
        }) + count_note("[pip] "@, satisfied.len(), " already satisfied\n"@)
    }
}

fn pip_summary_line(l: &Vec<char>) -> (b: bool)
    ensures
        b == is_pip_summary(l@),
{
    let t = trimmed(l);
    has_prefix(&t, "Successfully installed")
}

fn pip_satisfied(l: &Vec<char>) -> (b: bool)
    ensures
        b == is_pip_satisfied(l@),
{
    let t = trimmed(l);
    !pip_summary_line(l) && (has_substr(&t, "already satisfied") || has_substr(
        &t,
        "Already installed",
    ))
}

fn pip_installed(l: &Vec<char>) -> (b: bool)
    ensures
        b == is_pip_installed(l@),
{
    let t = trimmed(l);
    !pip_summary_line(l) && !pip_satisfied(l) && (has_prefix(&t, "Installing") || has_prefix(
        &t,
        "Installed",
    ))
}

/// Compress the output of `pip install` and `uv pip install`.
pub fn compress_pip_install(raw: &str) -> (out: String)
    ensures
        out@ == pip_install_summary(raw@),
{
    let chars = chars_of(raw);
    let ls = split_lines(&chars);
    let summary = find_last(&ls, pip_summary_line, Ghost(|l: Seq<char>| is_pip_summary(l)));
    let installed = select(&ls, pip_installed, Ghost(|l: Seq<char>| is_pip_installed(l)));
    let satisfied = select(&ls, pip_satisfied, Ghost(|l: Seq<char>| is_pip_satisfied(l)));
    if summary.is_none() && installed.len() == 0 && satisfied.len() == 0 {
        return truncate(raw);
    }
    let mut out: Vec<char> = Vec::new();
    match &summary {
        Some(s) => {
            push_str(&mut out, "[pip] ");
            let t = trimmed(s);
            push_chars(&mut out, &t);
            push_str(&mut out, "\n");
            assert(out@ =~= "[pip] "@ + trim(s@) + "\n"@);
        },
        None => {
            if installed.len() > 0 {
                push_str(&mut out, "[pip] installed ");
                push_decimal(&mut out, installed.len());
                push_str(&mut out, "\n");
                let shown = trim_all(&installed);
                push_block(&mut out, &shown, 20, "  ");
                assert(out@ =~= "[pip] installed "@ + decimal(installed@.len()) + "\n"@ + block(
                    first_n(trim_each(views(installed@)), 20),
                    "  "@,
                ));
            }
        },
    }
    push_count_note(&mut out, "[pip] ", satisfied.len(), " already satisfied\n");
    assert(out@ =~= pip_install_summary(raw@));
    string_of(&out)
}

// ---------------------------------------------------------------------------
// pip list, pip list --outdated
// ---------------------------------------------------------------------------

/// `l` names a package: it is not part of the table's header, nor blank.
pub open spec fn is_package(l: Seq<char>) -> bool {
    !starts_with(l, "Package"@) && !starts_with(l, "---"@) && !is_blank(l)
}

/// The summary of a package list: how many packages there are, and the
/// first fifty; a note where the output has no line at all.
pub open spec fn pip_list_summary(raw: Seq<char>) -> Seq<char> {
    let ls = lines(raw);
    let packages = ls.filter(|l: Seq<char>| is_package(l));
    if ls.len() == 0 {
        "[pip list] empty"@
    } else {
        "[packages: "@ + decimal(packages.len()) + "]\n"@ + listing(packages, 50)
    }
}

/// The summary of a list of outdated packages: how many there are, and the
/// first thirty; a note where there is none.
pub open spec fn pip_outdated_summary(raw: Seq<char>) -> Seq<char> {
    let packages = lines(raw).filter(|l: Seq<char>| is_package(l));
    if packages.len() == 0 {
        "[pip] all up to date"@
    } else {
        "[outdated: "@ + decimal(packages.len()) + "]\n"@ + listing(packages, 30)
    }
}

fn package(l: &Vec<char>) -> (b: bool)
    ensures
        b == is_package(l@),
{
    !has_prefix(l, "Package") && !has_prefix(l, "---") && !blank(l)
}

/// Compress the output of `pip list`, `uv pip list` and `pip freeze`.
pub fn compress_pip_list(raw: &str) -> (out: String)
    ensures
        out@ == pip_list_summary(raw@),
{
    let chars = chars_of(raw);
    let ls = split_lines(&chars);
    if ls.len() == 0 {
        return "[pip list] empty".to_owned();
    }
    let packages = select(&ls, package, Ghost(|l: Seq<char>| is_package(l)));
    let mut out: Vec<char> = Vec::new();
    push_str(&mut out, "[packages: ");
    push_decimal(&mut out, packages.len());
    push_str(&mut out, "]\n");
    push_listing(&mut out, &packages, 50);
    assert(out@ =~= pip_list_summary(raw@));
    string_of(&out)
}

/// Compress the output of `pip list --outdated`.
pub fn compress_pip_outdated(raw: &str) -> (out: String)
    ensures
        out@ == pip_outdated_summary(raw@),
{
    let chars = chars_of(raw);
    let ls = split_lines(&chars);
    let packages = select(&ls, package, Ghost(|l: Seq<char>| is_package(l)));
    if packages.len() == 0 {
        return "[pip] all up to date".to_owned();
    }
    let mut out: Vec<char> = Vec::new();
    push_str(&mut out, "[outdated: ");
    push_decimal(&mut out, packages.len());
    push_str(&mut out, "]\n");
    push_listing(&mut out, &packages, 30);
    assert(out@ =~= pip_outdated_summary(raw@));
    string_of(&out)
}

// ---------------------------------------------------------------------------
// uv sync, uv lock, uv add, uv remove
// ---------------------------------------------------------------------------

/// `l` tells how many packages were resolved or audited.
pub open spec fn is_resolution(l: Seq<char>) -> bool {
    let t = trim(l);
    starts_with(t, "Resolved"@) || starts_with(t, "Audited"@)
}

/// `l` tells of a package that came.
pub open spec fn is_addition(l: Seq<char>) -> bool {
    let t = trim(l);
    starts_with_char(t, '+') || starts_with(t, "Installed"@)
}

/// `l` tells of a package that went.
pub open spec fn is_removal(l: Seq<char>) -> bool {
    let t = trim(l);
    starts_with_char(t, '-') || starts_with(t, "Uninstalled"@)
}

/// The summary of a sync: the last line on the resolution, the numbers of
/// packages that came and went, and for output of more than ten lines the
/// output itself with its repeated lines collapsed.
pub open spec fn uv_sync_summary(raw: Seq<char>) -> Seq<char> {
    let ls = lines(raw);
    "[uv sync] "@ + (match last_of(ls, |l: Seq<char>| is_resolution(l)) {
        Some(r) => trim(r) + " | "@,
        None => Seq::empty(),
    }) + "+"@ + decimal(ls.filter(|l: Seq<char>| is_addition(l)).len()) + " -"@ + decimal(
        ls.filter(|l: Seq<char>| is_removal(l)).len(),
    ) + "\n"@ + (if ls.len() > 10 {
        deduped(raw)
    } else {
        Seq::empty()
    })
}

fn resolution(l: &Vec<char>) -> (b: bool)
    ensures
        b == is_resolution(l@),
{
    let t = trimmed(l);
    has_prefix(&t, "Resolved") || has_prefix(&t, "Audited")
}

fn addition(l: &Vec<char>) -> (b: bool)
    ensures
        b == is_addition(l@),
{
    let t = trimmed(l);
    has_first_char(&t, '+') || has_prefix(&t, "Installed")
}

fn removal(l: &Vec<char>) -> (b: bool)
    ensures
        b == is_removal(l@),
{
    let t = trimmed(l);
    has_first_char(&t, '-') || has_prefix(&t, "Uninstalled")
}

/// Compress `uv sync` output.
pub fn compress_uv_sync(raw: &str) -> (out: String)
    ensures
        out@ == uv_sync_summary(raw@),
{
    let chars = chars_of(raw);
    let ls = split_lines(&chars);
    let resolved = find_last(&ls, resolution, Ghost(|l: Seq<char>| is_resolution(l)));
    let added = select(&ls, addition, Ghost(|l: Seq<char>| is_addition(l)));
    let removed = select(&ls, removal, Ghost(|l: Seq<char>| is_removal(l)));
    let mut out: Vec<char> = Vec::new();
    push_str(&mut out, "[uv sync] ");
    match &resolved {
        Some(r) => {
            let t = trimmed(r);
            push_chars(&mut out, &t);
            push_str(&mut out, " | ");
            assert(out@ =~= "[uv sync] "@ + (trim(r@) + " | "@));
        },
        None => {
            assert(out@ =~= "[uv sync] "@ + Seq::<char>::empty());
        },
    }
    push_str(&mut out, "+");
    push_decimal(&mut out, added.len());
    push_str(&mut out, " -");
    push_decimal(&mut out, removed.len());
    push_str(&mut out, "\n");
    if ls.len() > 10 {
        let rest = dedup_chars(&chars);
        push_chars(&mut out, &rest);
    }
    assert(out@ =~= uv_sync_summary(raw@));
    string_of(&out)
}

/// `l` tells how many packages were resolved.
pub open spec fn is_resolved(l: Seq<char>) -> bool {
    starts_with(trim(l), "Resolved"@)
}

/// The summary of a lock: the first line on the resolution; the truncation
/// of the output where there is none.
pub open spec fn uv_lock_summary(raw: Seq<char>) -> Seq<char> {
    match first_of(lines(raw), |l: Seq<char>| is_resolved(l)) {
        Some(r) => "[uv lock] "@ + trim(r),
        None => truncated(raw),
    }
}

fn resolved(l: &Vec<char>) -> (b: bool)
    ensures
        b == is_resolved(l@),
{
    let t = trimmed(l);
    has_prefix(&t, "Resolved")
}

/// Compress `uv lock` output.
pub fn compress_uv_lock(raw: &str) -> (out: String)
    ensures
        out@ == uv_lock_summary(raw@),
{
    let chars = chars_of(raw);
    let ls = split_lines(&chars);
    match find_first(&ls, resolved, Ghost(|l: Seq<char>| is_resolved(l))) {
        Some(r) => {
            let mut out: Vec<char> = Vec::new();
            push_str(&mut out, "[uv lock] ");
            let t = trimmed(&r);
            push_chars(&mut out, &t);
            string_of(&out)
        },
        None => truncate(raw),
    }
}

/// `l` tells of a dependency that came, went or changed.
pub open spec fn is_dep_change(l: Seq<char>) -> bool {
    let t = trim(l);
    starts_with_char(t, '+') || starts_with_char(t, '-') || starts_with(t, "Updated"@)
}

/// The summary of a dependency change: the last line on the resolution
/// behind the label, and the first twenty changes.
pub open spec fn uv_dep_summary(sub: Seq<char>, raw: Seq<char>) -> Seq<char> {
    let ls = lines(raw);
    "[uv "@ + sub + "] "@ + (match last_of(ls, |l: Seq<char>| is_resolution(l)) {
        Some(r) => trim(r),
        None => Seq::empty(),
    }) + "\n"@ + listing(trim_each(ls.filter(|l: Seq<char>| is_dep_change(l))), 20)
}

fn dep_change(l: &Vec<char>) -> (b: bool)
    ensures
        b == is_dep_change(l@),
{
    let t = trimmed(l);
    has_first_char(&t, '+') || has_first_char(&t, '-') || has_prefix(&t, "Updated")
}

/// Compress `uv add` and `uv remove` output.
pub fn compress_uv_dep(sub: &str, raw: &str) -> (out: String)
    ensures
        out@ == uv_dep_summary(sub@, raw@),
{
    let chars = chars_of(raw);
    let ls = split_lines(&chars);
    let resolved = find_last(&ls, resolution, Ghost(|l: Seq<char>| is_resolution(l)));
    let changes = select(&ls, dep_change, Ghost(|l: Seq<char>| is_dep_change(l)));
    let mut out: Vec<char> = Vec::new();
    push_str(&mut out, "[uv ");
    push_str(&mut out, sub);
    push_str(&mut out, "] ");
    match &resolved {
        Some(r) => {
            let t = trimmed(r);
            push_chars(&mut out, &t);
        },
        None => {
            assert(out@ =~= "[uv "@ + sub@ + "] "@ + Seq::<char>::empty());
        },
    }
    push_str(&mut out, "\n");
    let shown = trim_all(&changes);
    push_listing(&mut out, &shown, 20);
    assert(out@ =~= uv_dep_summary(sub@, raw@));
    string_of(&out)
}

// ---------------------------------------------------------------------------
// The compressor
// ---------------------------------------------------------------------------

/// The summary of the output that goes with the key `sub`.
pub open spec fn python_summary(raw: Seq<char>, sub: Seq<char>) -> Seq<char> {
    if sub == "pytest"@ || sub == "test"@ {
        pytest_summary(raw)
    } else if sub == "ruff"@ {
        ruff_summary(raw)
    } else if sub == "mypy"@ {
        mypy_summary(raw)
    } else if sub == "pip"@ || sub == "install"@ || sub == "uninstall"@ {
        pip_install_summary(raw)
    } else if sub == "list"@ || sub == "freeze"@ {
        pip_list_summary(raw)
    } else if sub == "outdated"@ {
        pip_outdated_summary(raw)
    } else if sub == "sync"@ {
        uv_sync_summary(raw)
    } else if sub == "lock"@ {
        uv_lock_summary(raw)
    } else if sub == "add"@ || sub == "remove"@ {
        uv_dep_summary(sub, raw)
    } else {
        truncated(raw)
    }
}

/// Pure compressor for Python ecosystem output (pytest, ruff, pip, mypy,
/// uv).
pub struct PythonCompressor;

impl Compressor for PythonCompressor {
    /// The summary for the hinted key; the truncation of the raw output
    /// where the hint is missing or not known.
    open spec fn summary(&self, raw: Seq<char>, sub: Option<Seq<char>>) -> Seq<char> {
        python_summary(raw, hint_text(sub))
    }

    fn compress(&self, raw: &str, sub: Option<&str>) -> (out: String) {
        let name = match sub {
            Some(s) => s,
            None => "",
        };
        proof {
            reveal_strlit("");
            assert(name@ =~= hint_text(hint_view(sub)));
        }
        let key = chars_of(name);
        if is_literal(&key, "pytest") || is_literal(&key, "test") {
            compress_pytest(raw)
        } else if is_literal(&key, "ruff") {
            compress_ruff(raw)
        } else if is_literal(&key, "mypy") {
            compress_mypy(raw)
        } else if is_literal(&key, "pip") || is_literal(&key, "install") || is_literal(
            &key,
            "uninstall",
        ) {
            compress_pip_install(raw)
        } else if is_literal(&key, "list") || is_literal(&key, "freeze") {
            compress_pip_list(raw)
        } else if is_literal(&key, "outdated") {
            compress_pip_outdated(raw)
        } else if is_literal(&key, "sync") {
            compress_uv_sync(raw)
        } else if is_literal(&key, "lock") {
            compress_uv_lock(raw)
        } else if is_literal(&key, "add") || is_literal(&key, "remove") {
            compress_uv_dep(name, raw)
        } else {
            truncate(raw)
        }
    }
}

// ---------------------------------------------------------------------------
// Falling back
// ---------------------------------------------------------------------------

/// Whether the summary for the key `sub` looks for the line `l`, and is the
/// truncation of the output where it finds none.
pub open spec fn python_marker(sub: Seq<char>, l: Seq<char>) -> bool {
    if sub == "pytest"@ || sub == "test"@ {
        is_landmark(l) || is_short_result(l)
    } else if sub == "mypy"@ {
        is_mypy_error(l) || is_mypy_summary(l)
    } else if sub == "pip"@ || sub == "install"@ || sub == "uninstall"@ {
        is_pip_summary(l) || is_pip_installed(l) || is_pip_satisfied(l)
    } else if sub == "lock"@ {
        is_resolved(l)
    } else {
        false
    }
}

/// The keys whose summary has a form of its own whatever the output holds.
pub open spec fn python_structured(sub: Seq<char>) -> bool {
    ||| sub == "ruff"@
    ||| sub == "list"@
    ||| sub == "freeze"@
    ||| sub == "outdated"@
    ||| sub == "sync"@
    ||| sub == "add"@
    ||| sub == "remove"@
}

/// Without landmarks and short results, nothing of a test run is kept.
pub proof fn lemma_pytest_kept_none(ls: Seq<Seq<char>>)
    requires
        forall|i: int|
            0 <= i < ls.len() ==> !is_landmark(#[trigger] ls[i]) && !is_short_result(ls[i]),
    ensures
        scan_after(ls) == (Scan { in_failure: false, failure_lines: 0 }),
        pytest_kept(ls) == Seq::<Seq<char>>::empty(),
    decreases ls.len(),
{
    if ls.len() > 0 {
        let before = ls.drop_last();
        assert forall|i: int| 0 <= i < before.len() implies !is_landmark(#[trigger] before[i])
            && !is_short_result(before[i]) by {
            assert(before[i] == ls[i]);
        }
        lemma_pytest_kept_none(before);
        assert(!is_landmark(ls[ls.len() - 1]) && !is_short_result(ls[ls.len() - 1]));
    }
}

/// Fallback: for output in which no line is marked for the key, the
/// summary is the truncation of the output. This holds of every key, known
/// or not, but of those whose summary has a form of its own.
pub proof fn lemma_python_fallback(raw: Seq<char>, sub: Seq<char>)
    requires
        !python_structured(sub),
        forall|i: int|
            0 <= i < lines(raw).len() ==> !python_marker(sub, #[trigger] lines(raw)[i]),
    ensures
        python_summary(raw, sub) == truncated(raw),
{
    let ls = lines(raw);
    if sub == "pytest"@ || sub == "test"@ {
        lemma_pytest_kept_none(ls);
    } else if sub == "mypy"@ {
        lemma_filter_none(ls, |l: Seq<char>| is_mypy_error(l));
        lemma_filter_none(ls, |l: Seq<char>| is_mypy_summary(l));
    } else if sub == "pip"@ || sub == "install"@ || sub == "uninstall"@ {
        lemma_filter_none(ls, |l: Seq<char>| is_pip_summary(l));
        lemma_filter_none(ls, |l: Seq<char>| is_pip_installed(l));
        lemma_filter_none(ls, |l: Seq<char>| is_pip_satisfied(l));
    } else if sub == "lock"@ {
        lemma_filter_none(ls, |l: Seq<char>| is_resolved(l));
    }
}

/// The summary is never empty, unless the output is empty or a line ending
/// alone.
pub proof fn lemma_python_summary_not_empty(raw: Seq<char>, sub: Seq<char>)
    requires
        !is_bare(raw),
    ensures
        python_summary(raw, sub).len() > 0,
{
    if truncated(raw).len() == 0 {
        lemma_truncated_empty(raw, MAX_LINES as nat, MAX_LINE_LEN as nat);
    }
    reveal_strlit("[ruff] clean");
    reveal_strlit("[pytest]\n");
    reveal_strlit("[ruff] ");
    reveal_strlit("[mypy] ");
    reveal_strlit("[pip] ");
    reveal_strlit("[pip] installed ");
    reveal_strlit("[pip list] empty");
    reveal_strlit("[packages: ");
    reveal_strlit("[pip] all up to date");
    reveal_strlit("[outdated: ");
    reveal_strlit("[uv sync] ");
    reveal_strlit("[uv lock] ");
    reveal_strlit("[uv ");
}

} // verus!
