//! Summaries of version-control output.
use crate::compress::{hint_text, hint_view, Compressor};
use crate::listing::{
    block, clip_each, clip_first, find_first, first_n, first_of, lemma_filter_none, listing,
    overflow, push_block, push_listing, push_overflow, select, take_first, trim_all, trim_each,
    view_of,
};
use crate::text::buffer::{push_chars, push_str};
use crate::text::convert::{chars_of, string_of, views};
use crate::text::lines::{is_bare, join, lines, push_joined, split_lines};
use crate::text::matching::{
    contains, has_char, has_first_char, has_prefix, has_substr, is_literal, last_field,
    last_field_of, starts_with, starts_with_char, strip_prefixes, without_prefixes,
};
use crate::text::number::{decimal, push_decimal};
use crate::text::space::{blank, is_blank, trim, trimmed};
use crate::truncate::{lemma_truncated_empty, truncate, truncated, MAX_LINES, MAX_LINE_LEN};
use vstd::prelude::*;

verus! {

// ---------------------------------------------------------------------------
// status
// ---------------------------------------------------------------------------

/// The part of a status report that a line belongs to.
#[derive(Clone, Copy, Debug, PartialEq, Eq)]
pub enum Section {
    /// Before any section header.
    Preamble,
    Staged,
    Unstaged,
    Untracked,
}

/// The section that the header line `l` opens, if it is one.
pub open spec fn header_section(l: Seq<char>) -> Option<Section> {
    if starts_with(l, "Changes to be committed"@) {
        Some(Section::Staged)
    } else if starts_with(l, "Changes not staged"@) {
        Some(Section::Unstaged)
    } else if starts_with(l, "Untracked files"@) {
        Some(Section::Untracked)
    } else {
        None
    }
}

/// The section in force after the lines `ls`: that of the last header among
/// them.
pub open spec fn section_after(ls: Seq<Seq<char>>) -> Section
    decreases ls.len(),
{
    if ls.len() == 0 {
        Section::Preamble
    } else {
        match header_section(ls.last()) {
            Some(s) => s,
            None => section_after(ls.drop_last()),
        }
    }
}

/// `l` names a file: it is indented, and neither a header, nor a hint in
/// parentheses, nor empty.
pub open spec fn is_entry(l: Seq<char>) -> bool {
    &&& header_section(l) is None
    &&& !(starts_with_char(trim(l), '(') || l.len() == 0)
    &&& (starts_with_char(l, '\t') || starts_with(l, "  "@))
}

/// The entries among `ls` that stand in the section `which`, trimmed.
pub open spec fn section_files(ls: Seq<Seq<char>>, which: Section) -> Seq<Seq<char>>
    decreases ls.len(),
{
    if ls.len() == 0 {
        Seq::empty()
    } else {
        let l = ls.last();
        let before = ls.drop_last();
        if is_entry(l) && section_after(before) == which {
            section_files(before, which).push(trim(l))
        } else {
            section_files(before, which)
        }
    }
}

/// `l` names the current branch.
pub open spec fn is_branch_line(l: Seq<char>) -> bool {
    starts_with(l, "On branch"@)
}

/// `l` tells how the branch stands to its upstream.
pub open spec fn is_tracking_line(l: Seq<char>) -> bool {
    starts_with(l, "Your branch"@)
}

/// The branch that the report names, or a sentinel.
pub open spec fn branch_name(ls: Seq<Seq<char>>) -> Seq<char> {
    match first_of(ls, |l: Seq<char>| is_branch_line(l)) {
        Some(l) => strip_prefixes(l, "On branch "@),
        None => "(detached)"@,
    }
}

/// The note on how the branch stands to its upstream; nothing where the
/// report has none or says that the branch is up to date.
pub open spec fn tracking_note(ls: Seq<Seq<char>>) -> Seq<char> {
    match first_of(ls, |l: Seq<char>| is_tracking_line(l)) {
        Some(l) => if !contains(l, "up to date"@) {
            " | "@ + trim(l)
        } else {
            Seq::empty()
        },
        None => Seq::empty(),
    }
}

/// One line for a section with files: their number and their names.
pub open spec fn section_line(label: Seq<char>, files: Seq<Seq<char>>) -> Seq<char> {
    if files.len() > 0 {
        "["@ + label + " "@ + decimal(files.len()) + "] "@ + join(files, ", "@) + "\n"@
    } else {
        Seq::empty()
    }
}

/// The summary of a status report.
pub open spec fn status_summary(raw: Seq<char>) -> Seq<char> {
    let ls = lines(raw);
    let staged = section_files(ls, Section::Staged);
    let unstaged = section_files(ls, Section::Unstaged);
    let untracked = section_files(ls, Section::Untracked);
    let head = "[branch] "@ + branch_name(ls) + tracking_note(ls) + "\n"@;
    let sections = section_line("staged"@, staged) + section_line("modified"@, unstaged)
        + section_line("untracked"@, untracked);
    if staged.len() == 0 && unstaged.len() == 0 && untracked.len() == 0 {
        head + sections + "[clean]\n"@
    } else {
        head + sections
    }
}

fn names_branch(l: &Vec<char>) -> (b: bool)
    ensures
        b == is_branch_line(l@),
{
    has_prefix(l, "On branch")
}

fn tells_tracking(l: &Vec<char>) -> (b: bool)
    ensures
        b == is_tracking_line(l@),
{
    has_prefix(l, "Your branch")
}

fn line_header_section(l: &Vec<char>) -> (s: Option<Section>)
    ensures
        s == header_section(l@),
{
    if has_prefix(l, "Changes to be committed") {
        Some(Section::Staged)
    } else if has_prefix(l, "Changes not staged") {
        Some(Section::Unstaged)
    } else if has_prefix(l, "Untracked files") {
        Some(Section::Untracked)
    } else {
        None
    }
}

fn push_section_line(out: &mut Vec<char>, label: &str, files: &Vec<Vec<char>>)
    ensures
        final(out)@ == old(out)@ + section_line(label@, views(files@)),
{
    if files.len() > 0 {
        push_str(out, "[");
        push_str(out, label);
        push_str(out, " ");
        push_decimal(out, files.len());
        push_str(out, "] ");
        push_joined(out, files, ", ");
        push_str(out, "\n");
        assert(out@ =~= old(out)@ + ("["@ + label@ + " "@ + decimal(files@.len()) + "] "@ + join(
            views(files@),
            ", "@,
        ) + "\n"@));
    } else {
        assert(out@ =~= old(out)@ + Seq::<char>::empty());
    }
}

/// Compress `git status` into a structured summary.
pub fn compress_status(raw: &str) -> (out: String)
    ensures
        out@ == status_summary(raw@),
{
    let chars = chars_of(raw);
    let ls = split_lines(&chars);
    let mut out: Vec<char> = Vec::new();
    push_str(&mut out, "[branch] ");
    let on_branch = find_first(&ls, names_branch, Ghost(|l: Seq<char>| is_branch_line(l)));
    match on_branch {
        Some(l) => {
            let name = without_prefixes(&l, "On branch ");
            push_chars(&mut out, &name);
        },
        None => {
            push_str(&mut out, "(detached)");
        },
    }
    assert(out@ =~= "[branch] "@ + branch_name(lines(raw@)));
    let tracking = find_first(&ls, tells_tracking, Ghost(|l: Seq<char>| is_tracking_line(l)));
    match tracking {
        Some(l) => {
            if !has_substr(&l, "up to date") {
                push_str(&mut out, " | ");
                let t = trimmed(&l);
                push_chars(&mut out, &t);
            }
        },
        None => {},
    }
    assert(out@ =~= "[branch] "@ + branch_name(lines(raw@)) + tracking_note(lines(raw@)));
    push_str(&mut out, "\n");

    let mut section = Section::Preamble;
    let mut staged: Vec<Vec<char>> = Vec::new();
    let mut unstaged: Vec<Vec<char>> = Vec::new();
    let mut untracked: Vec<Vec<char>> = Vec::new();
    let mut i: usize = 0;
    proof {
        assert(views(ls@).take(0) =~= Seq::empty());
        assert(views(staged@) =~= Seq::empty());
        assert(views(unstaged@) =~= Seq::empty());
        assert(views(untracked@) =~= Seq::empty());
    }
    while i < ls.len()
        invariant
            i <= ls.len(),
            section == section_after(views(ls@).take(i as int)),
            views(staged@) == section_files(views(ls@).take(i as int), Section::Staged),
            views(unstaged@) == section_files(views(ls@).take(i as int), Section::Unstaged),
            views(untracked@) == section_files(views(ls@).take(i as int), Section::Untracked),
        decreases ls.len() - i,
    {
        let ghost seen = views(ls@).take(i as int);
        let ghost next = views(ls@).take(i + 1);
        let ghost staged_before = views(staged@);
        let ghost unstaged_before = views(unstaged@);
        let ghost untracked_before = views(untracked@);
        proof {
            assert(next.drop_last() =~= seen);
            assert(next.last() == ls@[i as int]@);
        }
        let line = &ls[i];
        match line_header_section(line) {
            Some(s) => {
                section = s;
            },
            None => {
                let t = trimmed(line);
                if !(has_first_char(&t, '(') || line.len() == 0) && (has_first_char(line, '\t')
                    || has_prefix(line, "  ")) {
                    match section {
                        Section::Staged => {
                            staged.push(t);
                            assert(views(staged@) =~= staged_before.push(trim(line@)));
                        },
                        Section::Unstaged => {
                            unstaged.push(t);
                            assert(views(unstaged@) =~= unstaged_before.push(trim(line@)));
                        },
                        Section::Untracked => {
                            untracked.push(t);
                            assert(views(untracked@) =~= untracked_before.push(trim(line@)));
                        },
                        Section::Preamble => {},
                    }
                }
            },
        }
        i += 1;
    }
    assert(views(ls@).take(ls.len() as int) =~= views(ls@));
    push_section_line(&mut out, "staged", &staged);
    push_section_line(&mut out, "modified", &unstaged);
    push_section_line(&mut out, "untracked", &untracked);
    if staged.len() == 0 && unstaged.len() == 0 && untracked.len() == 0 {
        push_str(&mut out, "[clean]\n");
    }
    assert(out@ =~= status_summary(raw@));
    string_of(&out)
}

// ---------------------------------------------------------------------------
// diff
// ---------------------------------------------------------------------------

/// `l` looks like a line of a change statistic: it has a bar and a plus or
/// minus sign, and is short.
pub open spec fn is_stat_line(l: Seq<char>) -> bool {
    l.contains('|') && (l.contains('+') || l.contains('-')) && l.len() < 120
}

/// `l` opens the patch of a file.
pub open spec fn is_file_header(l: Seq<char>) -> bool {
    !is_stat_line(l) && starts_with(l, "diff --git"@)
}

/// `l` is an added line of a patch, not the line that names the new file.
pub open spec fn is_added(l: Seq<char>) -> bool {
    !is_stat_line(l) && starts_with_char(l, '+') && !starts_with(l, "+++"@)
}

/// `l` is a removed line of a patch, not the line that names the old file.
pub open spec fn is_removed(l: Seq<char>) -> bool {
    !is_stat_line(l) && starts_with_char(l, '-') && !starts_with(l, "---"@)
}

/// The file that the header `l` names: its last field, without `b/`.
pub open spec fn header_file(l: Seq<char>) -> Seq<char> {
    strip_prefixes(last_field(l, ' '), "b/"@)
}

/// The file whose patch is being read, and the lines counted for it.
pub ghost struct Tally {
    pub file: Option<Seq<char>>,
    pub adds: nat,
    pub dels: nat,
}

/// The tally after the lines `ls`. A header starts a tally for its file;
/// every added or removed line counts.
pub open spec fn tally_after(ls: Seq<Seq<char>>) -> Tally
    decreases ls.len(),
{
    if ls.len() == 0 {
        Tally { file: None, adds: 0, dels: 0 }
    } else {
        let t = tally_after(ls.drop_last());
        let l = ls.last();
        if is_file_header(l) {
            Tally { file: Some(header_file(l)), adds: 0, dels: 0 }
        } else if is_added(l) {
            Tally { file: t.file, adds: t.adds + 1, dels: t.dels }
        } else if is_removed(l) {
            Tally { file: t.file, adds: t.adds, dels: t.dels + 1 }
        } else {
            t
        }
    }
}

/// The entry for a file: its name and the numbers of added and removed
/// lines.
pub open spec fn file_entry(file: Seq<char>, adds: nat, dels: nat) -> Seq<char> {
    "  "@ + file + ": +"@ + decimal(adds) + " -"@ + decimal(dels)
}

/// The entries of the files whose patch has ended within `ls`: each ends
/// where the next header stands.
pub open spec fn closed_entries(ls: Seq<Seq<char>>) -> Seq<Seq<char>>
    decreases ls.len(),
{
    if ls.len() == 0 {
        Seq::empty()
    } else {
        let before = ls.drop_last();
        let t = tally_after(before);
        if is_file_header(ls.last()) && t.file is Some {
            closed_entries(before).push(file_entry(t.file->0, t.adds, t.dels))
        } else {
            closed_entries(before)
        }
    }
}

/// One entry for each file of the patch, in their order.
pub open spec fn file_entries(ls: Seq<Seq<char>>) -> Seq<Seq<char>> {
    let t = tally_after(ls);
    if t.file is Some {
        closed_entries(ls).push(file_entry(t.file->0, t.adds, t.dels))
    } else {
        closed_entries(ls)
    }
}

/// The summary of a diff: the lines of its statistic as they stand, if it
/// has any; else one entry for each file of the patch; else a note that
/// nothing changed.
pub open spec fn diff_summary(raw: Seq<char>) -> Seq<char> {
    let ls = lines(raw);
    let stat = ls.filter(|l: Seq<char>| is_stat_line(l));
    "[diff]\n"@ + (if stat.len() > 0 {
        block(stat, "  "@)
    } else if file_entries(ls).len() > 0 {
        block(file_entries(ls), ""@)
    } else {
        "  (no changes)\n"@
    })
}

fn stat_line(l: &Vec<char>) -> (b: bool)
    ensures
        b == is_stat_line(l@),
{
    has_char(l, '|') && (has_char(l, '+') || has_char(l, '-')) && l.len() < 120
}

fn make_file_entry(file: &Vec<char>, adds: usize, dels: usize) -> (out: Vec<char>)
    ensures
        out@ == file_entry(file@, adds as nat, dels as nat),
{
    let mut out: Vec<char> = Vec::new();
    push_str(&mut out, "  ");
    push_chars(&mut out, file);
    push_str(&mut out, ": +");
    push_decimal(&mut out, adds);
    push_str(&mut out, " -");
    push_decimal(&mut out, dels);
    assert(out@ =~= file_entry(file@, adds as nat, dels as nat));
    out
}

/// Compress `git diff`: the statistic, or the changes counted file by file.
pub fn compress_diff(raw: &str) -> (out: String)
    ensures
        out@ == diff_summary(raw@),
{
    let chars = chars_of(raw);
    let ls = split_lines(&chars);
    let stat = select(&ls, stat_line, Ghost(|l: Seq<char>| is_stat_line(l)));
    let mut out: Vec<char> = Vec::new();
    push_str(&mut out, "[diff]\n");
    if stat.len() > 0 {
        assert(first_n(views(stat@), stat.len() as nat) =~= views(stat@));
        push_block(&mut out, &stat, stat.len(), "  ");
        return string_of(&out);
    }
    let mut entries: Vec<Vec<char>> = Vec::new();
    let mut file: Option<Vec<char>> = None;
    let mut adds: usize = 0;
    let mut dels: usize = 0;
    let mut i: usize = 0;
    proof {
        assert(views(ls@).take(0) =~= Seq::empty());
        assert(views(entries@) =~= Seq::empty());
    }
    while i < ls.len()
        invariant
            i <= ls.len(),
            adds <= i,
            dels <= i,
            tally_after(views(ls@).take(i as int)) == (Tally {
                file: view_of(file),
                adds: adds as nat,
                dels: dels as nat,
            }),
            views(entries@) == closed_entries(views(ls@).take(i as int)),
        decreases ls.len() - i,
    {
        let ghost seen = views(ls@).take(i as int);
        let ghost next = views(ls@).take(i + 1);
        let ghost before = views(entries@);
        proof {
            assert(next.drop_last() =~= seen);
            assert(next.last() == ls@[i as int]@);
        }
        let line = &ls[i];
        if !stat_line(line) {
            if has_prefix(line, "diff --git") {
                match &file {
                    Some(f) => {
                        entries.push(make_file_entry(f, adds, dels));
                        assert(views(entries@) =~= before.push(
                            file_entry(f@, adds as nat, dels as nat),
                        ));
                    },
                    None => {},
                }
                let field = last_field_of(line, ' ');
                file = Some(without_prefixes(&field, "b/"));
                adds = 0;
                dels = 0;
            } else if has_first_char(line, '+') && !has_prefix(line, "+++") {
                adds += 1;
            } else if has_first_char(line, '-') && !has_prefix(line, "---") {
                dels += 1;
            }
        }
        i += 1;
    }
    assert(views(ls@).take(ls.len() as int) =~= views(ls@));
    match &file {
        Some(f) => {
            let ghost before = views(entries@);
            entries.push(make_file_entry(f, adds, dels));
            assert(views(entries@) =~= before.push(file_entry(f@, adds as nat, dels as nat)));
        },
        None => {},
    }
    assert(views(entries@) == file_entries(lines(raw@)));
    if entries.len() > 0 {
        assert(first_n(views(entries@), entries.len() as nat) =~= views(entries@));
        push_block(&mut out, &entries, entries.len(), "");
    } else {
        push_str(&mut out, "  (no changes)\n");
    }
    string_of(&out)
}

// ---------------------------------------------------------------------------
// push, pull, fetch, clone
// ---------------------------------------------------------------------------

/// `l` reports progress only, or is blank.
pub open spec fn is_transfer_noise(l: Seq<char>) -> bool {
    let t = trim(l);
    ||| t.len() == 0
    ||| starts_with(t, "Enumerating"@)
    ||| starts_with(t, "Counting"@)
    ||| starts_with(t, "Compressing"@)
    ||| starts_with(t, "Writing"@)
    ||| starts_with(t, "Total"@)
    ||| starts_with(t, "Delta"@)
    ||| starts_with(t, "remote:"@)
    ||| contains(t, "100%"@)
}

/// `l` is worth showing after a transfer.
pub open spec fn is_transfer_news(l: Seq<char>) -> bool {
    !is_transfer_noise(l)
}

/// The label of a summary line for the subcommand `sub`.
pub open spec fn git_label(sub: Seq<char>) -> Seq<char> {
    "[git "@ + sub + "] "@
}

/// The summary of a transfer: what is left of the output without the
/// progress reports, on one line.
pub open spec fn transfer_summary(sub: Seq<char>, raw: Seq<char>) -> Seq<char> {
    let news = lines(raw).filter(|l: Seq<char>| is_transfer_news(l));
    git_label(sub) + (if news.len() == 0 {
        "ok"@
    } else {
        join(news, " | "@)
    })
}

fn transfer_news(l: &Vec<char>) -> (b: bool)
    ensures
        b == is_transfer_news(l@),
{
    let t = trimmed(l);
    !(t.len() == 0 || has_prefix(&t, "Enumerating") || has_prefix(&t, "Counting") || has_prefix(
        &t,
        "Compressing",
    ) || has_prefix(&t, "Writing") || has_prefix(&t, "Total") || has_prefix(&t, "Delta")
        || has_prefix(&t, "remote:") || has_substr(&t, "100%"))
}

fn push_git_label(out: &mut Vec<char>, sub: &str)
    ensures
        final(out)@ == old(out)@ + git_label(sub@),
{
    push_str(out, "[git ");
    push_str(out, sub);
    push_str(out, "] ");
    assert(out@ =~= old(out)@ + ("[git "@ + sub@ + "] "@));
}

/// Compress push, pull, fetch and clone: one line of what matters.
pub fn compress_transfer(sub: &str, raw: &str) -> (out: String)
    ensures
        out@ == transfer_summary(sub@, raw@),
{
    let chars = chars_of(raw);
    let ls = split_lines(&chars);
    let news = select(&ls, transfer_news, Ghost(|l: Seq<char>| is_transfer_news(l)));
    let mut out: Vec<char> = Vec::new();
    push_git_label(&mut out, sub);
    if news.len() == 0 {
        push_str(&mut out, "ok");
    } else {
        push_joined(&mut out, &news, " | ");
    }
    assert(out@ =~= transfer_summary(sub@, raw@));
    string_of(&out)
}

// ---------------------------------------------------------------------------
// add, commit, reset, restore, rm, mv, init
// ---------------------------------------------------------------------------

/// `l` holds both square brackets, as the line that names a commit does.
pub open spec fn has_brackets(l: Seq<char>) -> bool {
    l.contains('[') && l.contains(']')
}

/// `l` holds more than whitespace.
pub open spec fn has_content(l: Seq<char>) -> bool {
    !is_blank(l)
}

/// The first line of `ls` that holds more than whitespace, trimmed; `ok`
/// where there is none.
pub open spec fn first_words(ls: Seq<Seq<char>>) -> Seq<char> {
    match first_of(ls, |l: Seq<char>| has_content(l)) {
        Some(l) => trim(l),
        None => "ok"@,
    }
}

/// The summary of a command that writes: the line with brackets if there is
/// one, else the first line that says anything, else `ok`.
pub open spec fn write_op_summary(sub: Seq<char>, raw: Seq<char>) -> Seq<char> {
    let ls = lines(raw);
    git_label(sub) + (match first_of(ls, |l: Seq<char>| has_brackets(l)) {
        Some(l) => trim(l),
        None => first_words(ls),
    })
}

fn bracketed(l: &Vec<char>) -> (b: bool)
    ensures
        b == has_brackets(l@),
{
    has_char(l, '[') && has_char(l, ']')
}

fn not_blank(l: &Vec<char>) -> (b: bool)
    ensures
        b == has_content(l@),
{
    !blank(l)
}

fn push_first_words(out: &mut Vec<char>, ls: &Vec<Vec<char>>)
    ensures
        final(out)@ == old(out)@ + first_words(views(ls@)),
{
    match find_first(ls, not_blank, Ghost(|l: Seq<char>| has_content(l))) {
        Some(l) => {
            let t = trimmed(&l);
            push_chars(out, &t);
        },
        None => {
            push_str(out, "ok");
        },
    }
}

/// Compress add, commit, reset, restore and the like: just confirm.
pub fn compress_write_op(sub: &str, raw: &str) -> (out: String)
    ensures
        out@ == write_op_summary(sub@, raw@),
{
    let chars = chars_of(raw);
    let ls = split_lines(&chars);
    let mut out: Vec<char> = Vec::new();
    push_git_label(&mut out, sub);
    match find_first(&ls, bracketed, Ghost(|l: Seq<char>| has_brackets(l))) {
        Some(l) => {
            let t = trimmed(&l);
            push_chars(&mut out, &t);
        },
        None => {
            push_first_words(&mut out, &ls);
        },
    }
    assert(out@ =~= write_op_summary(sub@, raw@));
    string_of(&out)
}

// ---------------------------------------------------------------------------
// branch
// ---------------------------------------------------------------------------

/// `l` is marked as the current branch.
pub open spec fn is_current(l: Seq<char>) -> bool {
    starts_with_char(l, '*')
}

/// `l` is not marked as the current branch.
pub open spec fn is_other(l: Seq<char>) -> bool {
    !starts_with_char(l, '*')
}

/// The name of the current branch among `branches`, or a sentinel.
pub open spec fn current_branch(branches: Seq<Seq<char>>) -> Seq<char> {
    match first_of(branches, |l: Seq<char>| is_current(l)) {
        Some(l) => trim(strip_prefixes(l, "* "@)),
        None => "(none)"@,
    }
}

/// The summary of a branch list: how many there are, which is current, and
/// the first thirty of the others.
pub open spec fn branch_summary(raw: Seq<char>) -> Seq<char> {
    let branches = lines(raw).filter(|l: Seq<char>| has_content(l));
    if branches.len() == 0 {
        "[branches] none"@
    } else {
        "[branches: "@ + decimal(branches.len()) + "] current: "@ + current_branch(branches)
            + "\n"@ + listing(trim_each(branches.filter(|l: Seq<char>| is_other(l))), 30)
    }
}

fn marked_current(l: &Vec<char>) -> (b: bool)
    ensures
        b == is_current(l@),
{
    has_first_char(l, '*')
}

fn not_marked_current(l: &Vec<char>) -> (b: bool)
    ensures
        b == is_other(l@),
{
    !has_first_char(l, '*')
}

/// Compress `git branch`: list branches compactly.
pub fn compress_branch(raw: &str) -> (out: String)
    ensures
        out@ == branch_summary(raw@),
{
    let chars = chars_of(raw);
    let ls = split_lines(&chars);
    let branches = select(&ls, not_blank, Ghost(|l: Seq<char>| has_content(l)));
    if branches.len() == 0 {
        return "[branches] none".to_owned();
    }
    let mut out: Vec<char> = Vec::new();
    push_str(&mut out, "[branches: ");
    push_decimal(&mut out, branches.len());
    push_str(&mut out, "] current: ");
    match find_first(&branches, marked_current, Ghost(|l: Seq<char>| is_current(l))) {
        Some(l) => {
            let name = without_prefixes(&l, "* ");
            let t = trimmed(&name);
            push_chars(&mut out, &t);
        },
        None => {
            push_str(&mut out, "(none)");
        },
    }
    push_str(&mut out, "\n");
    let others = select(&branches, not_marked_current, Ghost(|l: Seq<char>| is_other(l)));
    let names = trim_all(&others);
    push_listing(&mut out, &names, 30);
    assert(out@ =~= branch_summary(raw@));
    string_of(&out)
}

// ---------------------------------------------------------------------------
// tag
// ---------------------------------------------------------------------------

/// The summary of a tag list: how many there are, and the first thirty.
pub open spec fn tag_summary(raw: Seq<char>) -> Seq<char> {
    let tags = lines(raw).filter(|l: Seq<char>| has_content(l));
    if tags.len() == 0 {
        "[tags] none"@
    } else {
        "[tags: "@ + decimal(tags.len()) + "]\n"@ + listing(tags, 30)
    }
}

/// Compress `git tag`: list tags compactly.
pub fn compress_tag(raw: &str) -> (out: String)
    ensures
        out@ == tag_summary(raw@),
{
    let chars = chars_of(raw);
    let ls = split_lines(&chars);
    let tags = select(&ls, not_blank, Ghost(|l: Seq<char>| has_content(l)));
    if tags.len() == 0 {
        return "[tags] none".to_owned();
    }
    let mut out: Vec<char> = Vec::new();
    push_str(&mut out, "[tags: ");
    push_decimal(&mut out, tags.len());
    push_str(&mut out, "]\n");
    push_listing(&mut out, &tags, 30);
    assert(out@ =~= tag_summary(raw@));
    string_of(&out)
}

// ---------------------------------------------------------------------------
// stash
// ---------------------------------------------------------------------------

/// `l` is an entry of the stash list.
pub open spec fn is_stash_entry(l: Seq<char>) -> bool {
    starts_with(l, "stash@{"@)
}

/// The summary of stash output: a list is counted and its first twenty
/// lines shown; of anything else the first line is shown.
pub open spec fn stash_summary(raw: Seq<char>) -> Seq<char> {
    let ls = lines(raw);
    if is_blank(raw) {
        "[stash] ok"@
    } else if ls.filter(|l: Seq<char>| is_stash_entry(l)).len() > 0 {
        "[stash: "@ + decimal(ls.len()) + " entries]\n"@ + listing(ls, 20)
    } else {
        "[stash] "@ + (if ls.len() > 0 {
            trim(ls[0])
        } else {
            "ok"@
        })
    }
}

fn stash_entry(l: &Vec<char>) -> (b: bool)
    ensures
        b == is_stash_entry(l@),
{
    has_prefix(l, "stash@{")
}

/// Compress `git stash`: list, show, pop, apply.
pub fn compress_stash(sub: &str, raw: &str) -> (out: String)
    ensures
        out@ == stash_summary(raw@),
{
    let chars = chars_of(raw);
    if blank(&chars) {
        return "[stash] ok".to_owned();
    }
    let ls = split_lines(&chars);
    let entries = select(&ls, stash_entry, Ghost(|l: Seq<char>| is_stash_entry(l)));
    let mut out: Vec<char> = Vec::new();
    if entries.len() > 0 {
        push_str(&mut out, "[stash: ");
        push_decimal(&mut out, ls.len());
        push_str(&mut out, " entries]\n");
        push_listing(&mut out, &ls, 20);
    } else {
        push_str(&mut out, "[stash] ");
        if ls.len() > 0 {
            let t = trimmed(&ls[0]);
            push_chars(&mut out, &t);
        } else {
            push_str(&mut out, "ok");
        }
    }
    assert(out@ =~= stash_summary(raw@));
    string_of(&out)
}

// ---------------------------------------------------------------------------
// merge, rebase, cherry-pick
// ---------------------------------------------------------------------------

/// `l` reports a conflict.
pub open spec fn is_conflict(l: Seq<char>) -> bool {
    contains(l, "CONFLICT"@) || contains(l, "conflict"@)
}

/// `l` says more than that a file was merged or a commit applied.
pub open spec fn is_merge_news(l: Seq<char>) -> bool {
    let t = trim(l);
    t.len() != 0 && !starts_with(t, "Auto-merging"@) && !starts_with(t, "Applying:"@)
}

/// The summary of a merge, rebase or cherry-pick: every line that reports a
/// conflict, if there is one; else the first five lines worth showing, on
/// one line.
pub open spec fn merge_summary(sub: Seq<char>, raw: Seq<char>) -> Seq<char> {
    let ls = lines(raw);
    let conflicts = ls.filter(|l: Seq<char>| is_conflict(l));
    let news = ls.filter(|l: Seq<char>| is_merge_news(l));
    if is_blank(raw) {
        git_label(sub) + "ok"@
    } else if conflicts.len() > 0 {
        git_label(sub) + "CONFLICTS ("@ + decimal(conflicts.len()) + ")\n"@ + block(
            trim_each(conflicts),
            "  "@,
        )
    } else if news.len() == 0 {
        git_label(sub) + "ok"@
    } else {
        git_label(sub) + join(first_n(news, 5), " | "@)
    }
}

fn conflict_line(l: &Vec<char>) -> (b: bool)
    ensures
        b == is_conflict(l@),
{
    has_substr(l, "CONFLICT") || has_substr(l, "conflict")
}

fn merge_news(l: &Vec<char>) -> (b: bool)
    ensures
        b == is_merge_news(l@),
{
    let t = trimmed(l);
    t.len() != 0 && !has_prefix(&t, "Auto-merging") && !has_prefix(&t, "Applying:")
}

/// Compress merge, rebase and cherry-pick output.
pub fn compress_merge_like(sub: &str, raw: &str) -> (out: String)
    ensures
        out@ == merge_summary(sub@, raw@),
{
    let chars = chars_of(raw);
    let mut out: Vec<char> = Vec::new();
    push_git_label(&mut out, sub);
    if blank(&chars) {
        push_str(&mut out, "ok");
        return string_of(&out);
    }
    let ls = split_lines(&chars);
    let conflicts = select(&ls, conflict_line, Ghost(|l: Seq<char>| is_conflict(l)));
    if conflicts.len() > 0 {
        push_str(&mut out, "CONFLICTS (");
        push_decimal(&mut out, conflicts.len());
        push_str(&mut out, ")\n");
        let shown = trim_all(&conflicts);
        assert(first_n(views(shown@), shown.len() as nat) =~= views(shown@));
        push_block(&mut out, &shown, shown.len(), "  ");
        assert(out@ =~= merge_summary(sub@, raw@));
        return string_of(&out);
    }
    let news = select(&ls, merge_news, Ghost(|l: Seq<char>| is_merge_news(l)));
    if news.len() == 0 {
        push_str(&mut out, "ok");
    } else {
        let shown = take_first(&news, 5);
        push_joined(&mut out, &shown, " | ");
    }
    assert(out@ =~= merge_summary(sub@, raw@));
    string_of(&out)
}

// ---------------------------------------------------------------------------
// checkout, switch
// ---------------------------------------------------------------------------

/// The summary of a checkout: the first line that says anything.
pub open spec fn checkout_summary(sub: Seq<char>, raw: Seq<char>) -> Seq<char> {
    git_label(sub) + first_words(lines(raw))
}

/// Compress checkout and switch output.
pub fn compress_checkout(sub: &str, raw: &str) -> (out: String)
    ensures
        out@ == checkout_summary(sub@, raw@),
{
    let chars = chars_of(raw);
    let ls = split_lines(&chars);
    let mut out: Vec<char> = Vec::new();
    push_git_label(&mut out, sub);
    push_first_words(&mut out, &ls);
    string_of(&out)
}

// ---------------------------------------------------------------------------
// remote
// ---------------------------------------------------------------------------

/// `l` gives the address that a remote is fetched from.
pub open spec fn is_fetch_remote(l: Seq<char>) -> bool {
    contains(l, "(fetch)"@)
}

/// The summary of a remote list: how many remotes there are, and the first
/// thirty; without any, a note if the output is blank, else its truncation.
pub open spec fn remote_summary(raw: Seq<char>) -> Seq<char> {
    let remotes = lines(raw).filter(|l: Seq<char>| is_fetch_remote(l));
    if remotes.len() > 0 {
        "[remotes: "@ + decimal(remotes.len()) + "]\n"@ + listing(remotes, 30)
    } else if is_blank(raw) {
        "[remotes] none"@
    } else {
        truncated(raw)
    }
}

fn fetch_remote(l: &Vec<char>) -> (b: bool)
    ensures
        b == is_fetch_remote(l@),
{
    has_substr(l, "(fetch)")
}

/// Compress `git remote -v` output.
pub fn compress_remote(raw: &str) -> (out: String)
    ensures
        out@ == remote_summary(raw@),
{
    let chars = chars_of(raw);
    let ls = split_lines(&chars);
    let remotes = select(&ls, fetch_remote, Ghost(|l: Seq<char>| is_fetch_remote(l)));
    if remotes.len() == 0 {
        if blank(&chars) {
            return "[remotes] none".to_owned();
        }
        return truncate(raw);
    }
    let mut out: Vec<char> = Vec::new();
    push_str(&mut out, "[remotes: ");
    push_decimal(&mut out, remotes.len());
    push_str(&mut out, "]\n");
    push_listing(&mut out, &remotes, 30);
    assert(out@ =~= remote_summary(raw@));
    string_of(&out)
}

// ---------------------------------------------------------------------------
// blame
// ---------------------------------------------------------------------------

/// The summary of a blame: the number of lines, the first eighty of them,
/// each cut to a bounded length, and a note on the rest.
pub open spec fn blame_summary(raw: Seq<char>) -> Seq<char> {
    let ls = lines(raw);
    if ls.len() == 0 {
        "[blame] empty"@
    } else {
        "[blame: "@ + decimal(ls.len()) + " lines]\n"@ + block(
            clip_each(first_n(ls, 80), 120, " …"@),
            ""@,
        ) + overflow(ls.len(), 80, " more lines\n"@)
    }
}

/// Compress `git blame` output: compact, keep line references.
pub fn compress_blame(raw: &str) -> (out: String)
    ensures
        out@ == blame_summary(raw@),
{
    let chars = chars_of(raw);
    let ls = split_lines(&chars);
    if ls.len() == 0 {
        return "[blame] empty".to_owned();
    }
    let mut out: Vec<char> = Vec::new();
    push_str(&mut out, "[blame: ");
    push_decimal(&mut out, ls.len());
    push_str(&mut out, " lines]\n");
    let shown = clip_first(&ls, 80, 120, " …");
    assert(first_n(views(shown@), shown.len() as nat) =~= views(shown@));
    push_block(&mut out, &shown, shown.len(), "");
    push_overflow(&mut out, ls.len(), 80, " more lines\n");
    assert(out@ =~= blame_summary(raw@));
    string_of(&out)
}

// ---------------------------------------------------------------------------
// clean
// ---------------------------------------------------------------------------

/// `l` names something that was, or would be, removed.
pub open spec fn is_removal(l: Seq<char>) -> bool {
    starts_with(l, "Removing"@) || starts_with(l, "Would remove"@)
}

/// The summary of a clean: how many items go, and the first thirty; without
/// any, a note if the output is blank, else its truncation.
pub open spec fn clean_summary(raw: Seq<char>) -> Seq<char> {
    let removed = lines(raw).filter(|l: Seq<char>| is_removal(l));
    if removed.len() > 0 {
        "[git clean] "@ + decimal(removed.len()) + " items\n"@ + listing(removed, 30)
    } else if is_blank(raw) {
        "[git clean] nothing to clean"@
    } else {
        truncated(raw)
    }
}

fn removal(l: &Vec<char>) -> (b: bool)
    ensures
        b == is_removal(l@),
{
    has_prefix(l, "Removing") || has_prefix(l, "Would remove")
}

/// Compress `git clean` output.
pub fn compress_clean(raw: &str) -> (out: String)
    ensures
        out@ == clean_summary(raw@),
{
    let chars = chars_of(raw);
    let ls = split_lines(&chars);
    let removed = select(&ls, removal, Ghost(|l: Seq<char>| is_removal(l)));
    if removed.len() == 0 {
        if blank(&chars) {
            return "[git clean] nothing to clean".to_owned();
        }
        return truncate(raw);
    }
    let mut out: Vec<char> = Vec::new();
    push_str(&mut out, "[git clean] ");
    push_decimal(&mut out, removed.len());
    push_str(&mut out, " items\n");
    push_listing(&mut out, &removed, 30);
    assert(out@ =~= clean_summary(raw@));
    string_of(&out)
}

// ---------------------------------------------------------------------------
// The compressor
// ---------------------------------------------------------------------------

/// The summary of the output of the subcommand `sub`.
pub open spec fn git_summary(raw: Seq<char>, sub: Seq<char>) -> Seq<char> {
    if sub == "status"@ {
        status_summary(raw)
    } else if sub == "diff"@ {
        diff_summary(raw)
    } else if sub == "push"@ || sub == "pull"@ || sub == "fetch"@ || sub == "clone"@ {
        transfer_summary(sub, raw)
    } else if sub == "add"@ || sub == "commit"@ || sub == "reset"@ || sub == "restore"@ || sub
        == "rm"@ || sub == "mv"@ || sub == "init"@ {
        write_op_summary(sub, raw)
    } else if sub == "branch"@ {
        branch_summary(raw)
    } else if sub == "tag"@ {
        tag_summary(raw)
    } else if sub == "stash"@ {
        stash_summary(raw)
    } else if sub == "merge"@ || sub == "rebase"@ || sub == "cherry-pick"@ {
        merge_summary(sub, raw)
    } else if sub == "checkout"@ || sub == "switch"@ {
        checkout_summary(sub, raw)
    } else if sub == "remote"@ {
        remote_summary(raw)
    } else if sub == "blame"@ {
        blame_summary(raw)
    } else if sub == "clean"@ {
        clean_summary(raw)
    } else {
        truncated(raw)
    }
}

/// Pure compressor for git command output.
pub struct GitCompressor;

impl Compressor for GitCompressor {
    /// The summary for the hinted subcommand; the truncation of the raw
    /// output where the hint is missing or not known.
    open spec fn summary(&self, raw: Seq<char>, sub: Option<Seq<char>>) -> Seq<char> {
        git_summary(raw, hint_text(sub))
    }

    fn compress(&self, raw: &str, sub: Option<&str>) -> (out: String) {
        let name = match sub {
            Some(s) => s,
            None => "",
        };
        proof {
            reveal_strlit("");
            assert(name@ =~= hint_text(hint_view(sub)));
        }
        let key = chars_of(name);
        if is_literal(&key, "status") {
            compress_status(raw)
        } else if is_literal(&key, "diff") {
            compress_diff(raw)
        } else if is_literal(&key, "push") || is_literal(&key, "pull") || is_literal(
            &key,
            "fetch",
        ) || is_literal(&key, "clone") {
            compress_transfer(name, raw)
        } else if is_literal(&key, "add") || is_literal(&key, "commit") || is_literal(
            &key,
            "reset",
        ) || is_literal(&key, "restore") || is_literal(&key, "rm") || is_literal(&key, "mv")
            || is_literal(&key, "init") {
            compress_write_op(name, raw)
        } else if is_literal(&key, "branch") {
            compress_branch(raw)
        } else if is_literal(&key, "tag") {
            compress_tag(raw)
        } else if is_literal(&key, "stash") {
            compress_stash(name, raw)
        } else if is_literal(&key, "merge") || is_literal(&key, "rebase") || is_literal(
            &key,
            "cherry-pick",
        ) {
            compress_merge_like(name, raw)
        } else if is_literal(&key, "checkout") || is_literal(&key, "switch") {
            compress_checkout(name, raw)
        } else if is_literal(&key, "remote") {
            compress_remote(raw)
        } else if is_literal(&key, "blame") {
            compress_blame(raw)
        } else if is_literal(&key, "clean") {
            compress_clean(raw)
        } else {
            truncate(raw)
        }
    }
}

// ---------------------------------------------------------------------------
// Falling back
// ---------------------------------------------------------------------------

/// Whether the summary for the subcommand `sub` looks for the line `l`,
/// and is the truncation of the output where it finds none.
pub open spec fn git_marker(sub: Seq<char>, l: Seq<char>) -> bool {
    if sub == "remote"@ {
        is_fetch_remote(l)
    } else if sub == "clean"@ {
        is_removal(l)
    } else {
        false
    }
}

/// The subcommands whose summary has a form of its own whatever the output
/// holds.
pub open spec fn git_structured(sub: Seq<char>) -> bool {
    ||| sub == "status"@
    ||| sub == "diff"@
    ||| sub == "push"@
    ||| sub == "pull"@
    ||| sub == "fetch"@
    ||| sub == "clone"@
    ||| sub == "add"@
    ||| sub == "commit"@
    ||| sub == "reset"@
    ||| sub == "restore"@
    ||| sub == "rm"@
    ||| sub == "mv"@
    ||| sub == "init"@
    ||| sub == "branch"@
    ||| sub == "tag"@
    ||| sub == "stash"@
    ||| sub == "merge"@
    ||| sub == "rebase"@
    ||| sub == "cherry-pick"@
    ||| sub == "checkout"@
    ||| sub == "switch"@
    ||| sub == "blame"@
}

/// Fallback: for output in which no line is marked for the subcommand, the
/// summary is the truncation of the output. This holds of every
/// subcommand, known or not, but of those whose summary has a form of its
/// own; for `remote` and `clean`, which answer blank output with a note,
/// the output must not be blank.
pub proof fn lemma_git_fallback(raw: Seq<char>, sub: Seq<char>)
    requires
        !git_structured(sub),
        sub == "remote"@ || sub == "clean"@ ==> !is_blank(raw),
        forall|i: int| 0 <= i < lines(raw).len() ==> !git_marker(sub, #[trigger] lines(raw)[i]),
    ensures
        git_summary(raw, sub) == truncated(raw),
{
    let ls = lines(raw);
    if sub == "remote"@ {
        lemma_filter_none(ls, |l: Seq<char>| is_fetch_remote(l));
    } else if sub == "clean"@ {
        lemma_filter_none(ls, |l: Seq<char>| is_removal(l));
    }
}

/// The summary is never empty, unless the output is empty or a line ending
/// alone.
pub proof fn lemma_git_summary_not_empty(raw: Seq<char>, sub: Seq<char>)
    requires
        !is_bare(raw),
    ensures
        git_summary(raw, sub).len() > 0,
{
    if truncated(raw).len() == 0 {
        lemma_truncated_empty(raw, MAX_LINES as nat, MAX_LINE_LEN as nat);
    }
    reveal_strlit("[remotes] none");
    reveal_strlit("[stash] ok");
    reveal_strlit("[git clean] nothing to clean");
    reveal_strlit("[branch] ");
    reveal_strlit("[diff]\n");
    reveal_strlit("[git ");
    reveal_strlit("[branches] none");
    reveal_strlit("[branches: ");
    reveal_strlit("[tags] none");
    reveal_strlit("[tags: ");
    reveal_strlit("[stash: ");
    reveal_strlit("[stash] ");
    reveal_strlit("[remotes: ");
    reveal_strlit("[blame] empty");
    reveal_strlit("[blame: ");
    reveal_strlit("[git clean] ");
}

} // verus!
