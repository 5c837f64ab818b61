//! The size-bounding primitives that every summary is built from or falls
//! back to: a cap on the number of lines and on the length of each line,
//! and the collapsing of runs of equal lines.
use crate::listing::{clip, clip_each, clip_first, first_n};
use crate::text::buffer::{push_str, same_chars};
use crate::text::convert::{chars_of, string_of, views};
use crate::text::lines::{
    has_crlf, is_bare, join, lemma_join_len, lemma_join_lines, lemma_lines_hold_no_line_feed,
    lemma_lines_nonempty, lemma_lines_of_join, lemma_one_empty_line, lines, push_joined,
    split_lines, strip_cr,
};
use crate::text::matching::lemma_first_index_is;
use crate::text::number::{decimal, lemma_decimal_digits, push_decimal};
use vstd::prelude::*;

verus! {

/// The default cap on the number of lines.
pub const MAX_LINES: usize = 150;

/// The default cap on the number of characters of a line.
pub const MAX_LINE_LEN: usize = 300;

/// The closing entry that reports how many lines there were and how many
/// of them are shown.
pub open spec fn total_note(total: nat, shown: nat) -> Seq<char> {
    "\n[cx] … "@ + decimal(total) + " lines total, showing first "@ + decimal(shown)
}

/// The entries of a truncation: the first `max_lines` lines, each clipped to
/// `max_line_len` characters, and the closing note if lines were left out.
pub open spec fn capped(ls: Seq<Seq<char>>, max_lines: nat, max_line_len: nat) -> Seq<Seq<char>> {
    let shown = clip_each(first_n(ls, max_lines), max_line_len, " …"@);
    if ls.len() > max_lines {
        shown.push(total_note(ls.len(), max_lines))
    } else {
        shown
    }
}

/// `raw` cut down to `max_lines` lines of `max_line_len` characters.
pub open spec fn truncated_with(raw: Seq<char>, max_lines: nat, max_line_len: nat) -> Seq<char> {
    join(capped(lines(raw), max_lines, max_line_len), "\n"@)
}

/// `raw` cut down to the default caps.
pub open spec fn truncated(raw: Seq<char>) -> Seq<char> {
    truncated_with(raw, MAX_LINES as nat, MAX_LINE_LEN as nat)
}

/// Appends the truncation of the given lines.
pub fn push_capped(
    out: &mut Vec<char>,
    ls: &Vec<Vec<char>>,
    max_lines: usize,
    max_line_len: usize,
)
    ensures
        final(out)@ == old(out)@ + join(
            capped(views(ls@), max_lines as nat, max_line_len as nat),
            "\n"@,
        ),
{
    let total = ls.len();
    let mut entries = clip_first(ls, max_lines, max_line_len, " …");
    if total > max_lines {
        let ghost before = views(entries@);
        let mut note: Vec<char> = Vec::new();
        push_str(&mut note, "\n[cx] … ");
        push_decimal(&mut note, total);
        push_str(&mut note, " lines total, showing first ");
        push_decimal(&mut note, max_lines);
        assert(note@ =~= total_note(total as nat, max_lines as nat));
        entries.push(note);
        assert(views(entries@) =~= before.push(total_note(total as nat, max_lines as nat)));
    }
    push_joined(out, &entries, "\n");
}

/// Truncate with custom limits.
///
/// At most `max_lines` lines are kept, in their order; a line longer than
/// `max_line_len` characters is cut there and marked with an ellipsis. Where
/// lines were left out, a closing note gives the total.
pub fn truncate_with(raw: &str, max_lines: usize, max_line_len: usize) -> (out: String)
    ensures
        out@ == truncated_with(raw@, max_lines as nat, max_line_len as nat),
{
    let chars = chars_of(raw);
    let ls = split_lines(&chars);
    let mut out: Vec<char> = Vec::new();
    push_capped(&mut out, &ls, max_lines, max_line_len);
    assert(out@ =~= truncated_with(raw@, max_lines as nat, max_line_len as nat));
    string_of(&out)
}

/// Truncate output: cap total lines and per-line length at the defaults.
pub fn truncate(raw: &str) -> (out: String)
    ensures
        out@ == truncated(raw@),
{
    truncate_with(raw, MAX_LINES, MAX_LINE_LEN)
}

/// The truncation of the given characters, at the default caps.
pub fn truncate_chars(raw: &Vec<char>) -> (out: Vec<char>)
    ensures
        out@ == truncated(raw@),
{
    let ls = split_lines(raw);
    let mut out: Vec<char> = Vec::new();
    push_capped(&mut out, &ls, MAX_LINES, MAX_LINE_LEN);
    assert(out@ =~= truncated(raw@));
    out
}

/// The given lines joined by line feeds, at the default caps.
pub fn truncate_joined(ls: &Vec<Vec<char>>) -> (out: Vec<char>)
    ensures
        out@ == truncated(join(views(ls@), "\n"@)),
{
    let mut joined: Vec<char> = Vec::new();
    push_joined(&mut joined, ls, "\n");
    assert(joined@ =~= join(views(ls@), "\n"@));
    truncate_chars(&joined)
}

/// Every line of `ls` has at most `width` characters.
pub open spec fn all_within(ls: Seq<Seq<char>>, width: nat) -> bool {
    forall|i: int| 0 <= i < ls.len() ==> (#[trigger] ls[i]).len() <= width
}

/// Truncation normalises a text that is below both caps: it gives back its
/// lines, joined by line feeds.
pub proof fn lemma_truncate_below_caps(raw: Seq<char>, max_lines: nat, max_line_len: nat)
    requires
        lines(raw).len() <= max_lines,
        all_within(lines(raw), max_line_len),
    ensures
        truncated_with(raw, max_lines, max_line_len) == join(lines(raw), "\n"@),
{
    let ls = lines(raw);
    assert(clip_each(first_n(ls, max_lines), max_line_len, " …"@) =~= ls);
}

/// Truncation leaves a text below both caps as it is, if the joining of
/// its lines does: the text must not end with a line feed, nor hold a
/// carriage return directly before one.
pub proof fn lemma_truncate_identity(raw: Seq<char>, max_lines: nat, max_line_len: nat)
    requires
        lines(raw).len() <= max_lines,
        all_within(lines(raw), max_line_len),
        raw.len() > 0 ==> raw.last() != '\n',
        !has_crlf(raw),
    ensures
        truncated_with(raw, max_lines, max_line_len) == raw,
{
    lemma_truncate_below_caps(raw, max_lines, max_line_len);
    lemma_join_lines(raw);
}

/// A truncation has at most `max_lines` entries and the closing note, and
/// none of those entries is longer than `max_line_len` characters and the
/// two of the ellipsis mark.
pub proof fn lemma_capped_bounds(ls: Seq<Seq<char>>, max_lines: nat, max_line_len: nat)
    ensures
        ({
            let entries = capped(ls, max_lines, max_line_len);
            &&& entries.len() <= max_lines + 1
            &&& ls.len() <= max_lines ==> entries.len() == ls.len()
            &&& ls.len() > max_lines ==> entries.len() == max_lines + 1 && entries.last()
                == total_note(ls.len(), max_lines)
            &&& forall|i: int|
                0 <= i < ls.len() && i < max_lines ==> (#[trigger] entries[i]) == clip(
                    ls[i],
                    max_line_len,
                    " …"@,
                ) && entries[i].len() <= max_line_len + 2
        }),
{
    reveal_strlit(" …");
}

/// Counted by its line feeds, a truncation has at most `max_lines` lines,
/// and two more, an empty line and the closing note, where lines were left
/// out; none of the first `max_lines` lines is longer than `max_line_len`
/// characters and the two of the ellipsis mark.
pub proof fn lemma_truncated_bounds(raw: Seq<char>, max_lines: nat, max_line_len: nat)
    ensures
        ({
            let out = lines(truncated_with(raw, max_lines, max_line_len));
            &&& out.len() <= max_lines + 2
            &&& lines(raw).len() <= max_lines ==> out.len() <= max_lines
            &&& forall|i: int|
                0 <= i < out.len() && i < max_lines ==> (#[trigger] out[i]).len() <= max_line_len
                    + 2
        }),
{
    reveal_strlit(" …");
    reveal_strlit("\n");
    let ls = lines(raw);
    let shown = clip_each(first_n(ls, max_lines), max_line_len, " …"@);
    assert forall|i: int| 0 <= i < shown.len() implies !(#[trigger] shown[i]).contains('\n')
        && shown[i].len() <= max_line_len + 2 by {
        lemma_lines_hold_no_line_feed(raw, i);
        let l = ls[i];
        assert(shown[i] == clip(l, max_line_len, " …"@));
        assert forall|k: int| 0 <= k < shown[i].len() implies shown[i][k] != '\n' by {
            if k < l.len() && k < max_line_len {
                assert(shown[i][k] == l[k]);
                assert(l.contains(l[k]));
            }
        }
    }
    let out = truncated_with(raw, max_lines, max_line_len);
    if ls.len() <= max_lines {
        lemma_lines_of_join(shown);
        assert forall|i: int| 0 <= i < lines(out).len() && i < max_lines implies (#[trigger] lines(
            out,
        )[i]).len() <= max_line_len + 2 by {
            assert(lines(out)[i] == shown[i] || lines(out)[i] == strip_cr(shown[i]));
        }
    } else {
        reveal_strlit("\n[cx] … ");
        reveal_strlit("[cx] … ");
        reveal_strlit(" lines total, showing first ");
        let total = decimal(ls.len());
        let cap = decimal(max_lines);
        lemma_decimal_digits(ls.len());
        lemma_decimal_digits(max_lines);
        let tail = "[cx] … "@ + total + " lines total, showing first "@ + cap;
        let note = total_note(ls.len(), max_lines);
        assert(note =~= seq!['\n'] + tail);
        assert(!tail.contains('\n')) by {
            assert forall|k: int| 0 <= k < tail.len() implies tail[k] != '\n' by {
                let a = "[cx] … "@.len() as int;
                let b = a + total.len();
                let c = b + " lines total, showing first "@.len();
                if k < a {
                    assert(tail[k] == "[cx] … "@[k]);
                } else if k < b {
                    assert(tail[k] == total[k - a]);
                } else if k < c {
                    assert(tail[k] == " lines total, showing first "@[k - b]);
                } else {
                    assert(tail[k] == cap[k - c]);
                }
            }
        }
        let parts = shown.push(Seq::<char>::empty()).push(tail);
        assert(join(parts, "\n"@) =~= join(shown.push(note), "\n"@)) by {
            let sep = "\n"@;
            assert(sep =~= seq!['\n']);
            assert(parts.drop_last() =~= shown.push(Seq::<char>::empty()));
            assert(shown.push(Seq::<char>::empty()).drop_last() =~= shown);
            assert(shown.push(note).drop_last() =~= shown);
            if shown.len() == 0 {
                assert(join(shown.push(Seq::<char>::empty()), sep) =~= Seq::<char>::empty());
            } else {
                assert(join(shown.push(Seq::<char>::empty()), sep) =~= join(shown, sep) + sep);
            }
        }
        assert forall|i: int| 0 <= i < parts.len() implies !(#[trigger] parts[i]).contains(
            '\n',
        ) by {
            if i < shown.len() {
                assert(parts[i] == shown[i]);
            }
        }
        lemma_lines_of_join(parts);
        assert forall|i: int| 0 <= i < lines(out).len() && i < max_lines implies (#[trigger] lines(
            out,
        )[i]).len() <= max_line_len + 2 by {
            assert(parts[i] == shown[i]);
            assert(lines(out)[i] == parts[i] || lines(out)[i] == strip_cr(parts[i]));
        }
    }
}

/// A truncation is empty only of a text that is empty or a line ending
/// alone.
pub proof fn lemma_truncated_empty(raw: Seq<char>, max_lines: nat, max_line_len: nat)
    requires
        truncated_with(raw, max_lines, max_line_len).len() == 0,
    ensures
        is_bare(raw),
{
    reveal_strlit(" …");
    reveal_strlit("\n");
    reveal_strlit("\n[cx] … ");
    let ls = lines(raw);
    let entries = capped(ls, max_lines, max_line_len);
    if raw.len() > 0 {
        lemma_lines_nonempty(raw);
        if ls.len() > max_lines {
            assert(entries.last() == total_note(ls.len(), max_lines));
            lemma_join_len(entries, "\n"@, entries.len() - 1);
        } else {
            assert(entries.len() == ls.len());
            lemma_join_len(entries, "\n"@, 0);
            assert(entries.len() == 1);
            assert(entries[0] == clip(ls[0], max_line_len, " …"@));
            assert(ls[0].len() == 0);
            assert(ls[0] =~= Seq::<char>::empty());
            assert(ls =~= seq![Seq::<char>::empty()]);
            lemma_one_empty_line(raw);
        }
    }
}

/// With room for a line, the truncation of a text is empty exactly if the
/// text is empty or a line ending alone.
pub proof fn lemma_truncated_empty_iff(raw: Seq<char>, max_lines: nat, max_line_len: nat)
    requires
        max_lines >= 1,
    ensures
        truncated_with(raw, max_lines, max_line_len).len() == 0 <==> is_bare(raw),
{
    if truncated_with(raw, max_lines, max_line_len).len() == 0 {
        lemma_truncated_empty(raw, max_lines, max_line_len);
    }
    if is_bare(raw) {
        let ls = lines(raw);
        if raw.len() > 0 {
            let n: int = if raw.len() == 1 {
                0
            } else {
                1
            };
            lemma_first_index_is(raw, '\n', n);
            let head = raw.take(n);
            let rest = raw.skip(n + 1);
            assert(rest =~= Seq::<char>::empty());
            assert(lines(rest) =~= Seq::<Seq<char>>::empty());
            if n == 1 {
                assert(head.last() == '\r');
                assert(head.drop_last() =~= Seq::<char>::empty());
            }
            assert(strip_cr(head) =~= Seq::<char>::empty());
            assert(ls =~= seq![strip_cr(head)] + lines(rest));
            assert(ls =~= seq![Seq::<char>::empty()]);
            let entries = capped(ls, max_lines, max_line_len);
            assert(entries[0] == clip(ls[0], max_line_len, " …"@));
        }
    }
}

/// `keep` accepts the line with this text.
pub open spec fn accepts<F: Fn(&str) -> bool>(keep: F, line: Seq<char>) -> bool {
    exists|s: &str| s@ == line && call_ensures(keep, (s,), true)
}

/// Keep only lines matching a predicate, then truncate.
///
/// `keep` must be a predicate on the text of a line: defined for every line,
/// with one answer for each text. The lines it accepts stay in their order;
/// if it accepts none, the result is empty.
pub fn filter_and_truncate<F: Fn(&str) -> bool>(raw: &str, keep: F) -> (out: String)
    requires
        forall|s: &str| call_requires(keep, (s,)),
        forall|s: &str, t: &str, a: bool, b: bool|
            s@ == t@ && call_ensures(keep, (s,), a) && call_ensures(keep, (t,), b) ==> a == b,
    ensures
        out@ == truncated(join(lines(raw@).filter(|l: Seq<char>| accepts(keep, l)), "\n"@)),
{
    let chars = chars_of(raw);
    let ls = split_lines(&chars);
    let ghost wanted = |l: Seq<char>| accepts(keep, l);
    let mut kept: Vec<Vec<char>> = Vec::new();
    let mut i: usize = 0;
    proof {
        reveal(Seq::filter);
        assert(views(ls@).take(0) =~= Seq::empty());
        assert(views(kept@) =~= Seq::empty());
    }
    while i < ls.len()
        invariant
            i <= ls.len(),
            forall|s: &str| call_requires(keep, (s,)),
            forall|s: &str, t: &str, a: bool, b: bool|
                s@ == t@ && call_ensures(keep, (s,), a) && call_ensures(keep, (t,), b) ==> a
                    == b,
            wanted == (|l: Seq<char>| accepts(keep, l)),
            views(kept@) == views(ls@).take(i as int).filter(wanted),
        decreases ls.len() - i,
    {
        let ghost before = views(kept@);
        proof {
            let seen = views(ls@).take(i as int);
            assert(views(ls@).take(i + 1) =~= seen.push(ls@[i as int]@));
            seen.lemma_filter_push(ls@[i as int]@, wanted);
        }
        let line = string_of(&ls[i]);
        let verdict = keep(line.as_str());
        assert(verdict == accepts(keep, ls@[i as int]@));
        if verdict {
            kept.push(ls[i].clone());
            assert(views(kept@) =~= before.push(ls@[i as int]@));
        }
        i += 1;
    }
    assert(views(ls@).take(ls.len() as int) =~= views(ls@));
    let out = truncate_joined(&kept);
    string_of(&out)
}

/// `line` with the number of its occurrences behind it, if more than one.
pub open spec fn annotated(line: Seq<char>, count: nat) -> Seq<char> {
    if count > 1 {
        line + "  (×"@ + decimal(count) + ")"@
    } else {
        line
    }
}

/// The length of the run of equal lines that `ls` ends with.
pub open spec fn tail_run(ls: Seq<Seq<char>>) -> nat
    decreases ls.len(),
{
    if ls.len() == 0 {
        0
    } else if ls.len() == 1 || ls[ls.len() - 2] != ls.last() {
        1
    } else {
        tail_run(ls.drop_last()) + 1
    }
}

/// One entry for each run of equal neighbouring lines: the line, annotated
/// with the length of the run.
pub open spec fn collapsed(ls: Seq<Seq<char>>) -> Seq<Seq<char>>
    decreases ls.len(),
    via collapsed_decreases
{
    if ls.len() == 0 {
        Seq::empty()
    } else {
        let k = tail_run(ls);
        collapsed(ls.take(ls.len() - k)).push(annotated(ls.last(), k))
    }
}

#[via_fn]
proof fn collapsed_decreases(ls: Seq<Seq<char>>) {
    lemma_tail_run_bounds(ls);
}

/// A sequence that is not empty ends with a run of at least one line.
pub proof fn lemma_tail_run_bounds(ls: Seq<Seq<char>>)
    ensures
        tail_run(ls) <= ls.len(),
        ls.len() > 0 ==> tail_run(ls) >= 1,
    decreases ls.len(),
{
    if ls.len() >= 2 && ls[ls.len() - 2] == ls.last() {
        lemma_tail_run_bounds(ls.drop_last());
    }
}

/// `line`, `count` times over.
pub open spec fn repeated(line: Seq<char>, count: nat) -> Seq<Seq<char>> {
    Seq::new(count, |i: int| line)
}

/// Lines in front of a run do not lengthen it, unless the last of them
/// equals those of the run.
pub proof fn lemma_tail_run_concat(a: Seq<Seq<char>>, b: Seq<Seq<char>>)
    requires
        b.len() > 0,
        a.len() == 0 || a.last() != b.first(),
    ensures
        tail_run(a + b) == tail_run(b),
    decreases b.len(),
{
    let all = a + b;
    assert(all.last() == b.last());
    if a.len() == 0 {
        assert(all =~= b);
    } else if b.len() == 1 {
        assert(all[all.len() - 2] == a.last());
    } else {
        assert(all[all.len() - 2] == b[b.len() - 2]);
        if b[b.len() - 2] == b.last() {
            assert(all.drop_last() =~= a + b.drop_last());
            assert(b.drop_last().first() == b.first());
            lemma_tail_run_concat(a, b.drop_last());
        }
    }
}

/// Collapsing goes part by part, where no run reaches across the border.
pub proof fn lemma_collapsed_concat(a: Seq<Seq<char>>, b: Seq<Seq<char>>)
    requires
        a.len() == 0 || b.len() == 0 || a.last() != b.first(),
    ensures
        collapsed(a + b) == collapsed(a) + collapsed(b),
    decreases b.len(),
{
    let all = a + b;
    if b.len() == 0 {
        assert(all =~= a);
        assert(collapsed(a) + collapsed(b) =~= collapsed(a));
    } else {
        lemma_tail_run_concat(a, b);
        lemma_tail_run_bounds(b);
        let k = tail_run(b);
        let head = b.take(b.len() - k);
        assert(all.take(all.len() - k) =~= a + head);
        assert(all.last() == b.last());
        if head.len() > 0 {
            assert(head.first() == b.first());
        }
        lemma_collapsed_concat(a, head);
        assert(collapsed(all) =~= collapsed(a) + collapsed(b));
    }
}

/// Equal lines form one run.
pub proof fn lemma_collapsed_repeated(line: Seq<char>, count: nat)
    requires
        count >= 1,
    ensures
        tail_run(repeated(line, count)) == count,
        collapsed(repeated(line, count)) == seq![annotated(line, count)],
    decreases count,
{
    let run = repeated(line, count);
    assert(run.last() == line);
    if count > 1 {
        assert(run.drop_last() =~= repeated(line, (count - 1) as nat));
        lemma_collapsed_repeated(line, (count - 1) as nat);
        assert(run[run.len() - 2] == run.last());
    }
    assert(tail_run(run) == count);
    assert(run.take(run.len() - count) =~= Seq::empty());
    assert(collapsed(run.take(run.len() - count)) =~= Seq::empty());
    assert(collapsed(run) =~= Seq::<Seq<char>>::empty().push(annotated(line, count)));
}

/// A run of `count` equal lines, with other lines or none on either side,
/// becomes exactly one entry: the line as it is if it stands alone, and with
/// the count behind it otherwise. What stands before and after the run is
/// collapsed by itself, so that equal lines with others between them are
/// never merged.
pub proof fn lemma_collapsed_run(
    before: Seq<Seq<char>>,
    line: Seq<char>,
    count: nat,
    after: Seq<Seq<char>>,
)
    requires
        count >= 1,
        before.len() == 0 || before.last() != line,
        after.len() == 0 || after.first() != line,
    ensures
        collapsed(before + repeated(line, count) + after) == collapsed(before).push(
            annotated(line, count),
        ) + collapsed(after),
        annotated(line, 1) == line,
{
    let run = repeated(line, count);
    lemma_collapsed_repeated(line, count);
    assert(run.first() == line && run.last() == line);
    lemma_collapsed_concat(before, run);
    assert((before + run).last() == line);
    lemma_collapsed_concat(before + run, after);
    assert(collapsed(before) + seq![annotated(line, count)] =~= collapsed(before).push(
        annotated(line, count),
    ));
}

/// Where no two neighbours are equal, every line is its own entry.
pub proof fn lemma_collapsed_without_runs(ls: Seq<Seq<char>>)
    requires
        forall|i: int| 0 <= i && i + 1 < ls.len() ==> ls[i] != #[trigger] ls[i + 1],
    ensures
        collapsed(ls) == ls,
    decreases ls.len(),
{
    if ls.len() > 0 {
        let before = ls.drop_last();
        if ls.len() >= 2 {
            assert(ls[(ls.len() - 2) + 1] == ls.last());
        }
        assert(tail_run(ls) == 1);
        assert(ls.take(ls.len() - 1) =~= before);
        assert forall|i: int| 0 <= i && i + 1 < before.len() implies before[i]
            != #[trigger] before[i + 1] by {
            assert(before[i] == ls[i] && before[i + 1] == ls[i + 1]);
        }
        lemma_collapsed_without_runs(before);
        assert(collapsed(ls) =~= ls);
    }
}

/// `raw` with every run of equal neighbouring lines collapsed, at the
/// default caps.
pub open spec fn deduped(raw: Seq<char>) -> Seq<char> {
    truncated(join(collapsed(lines(raw)), "\n"@))
}

fn annotate(line: &Vec<char>, count: usize) -> (out: Vec<char>)
    ensures
        out@ == annotated(line@, count as nat),
{
    let mut out = line.clone();
    if count > 1 {
        push_str(&mut out, "  (×");
        push_decimal(&mut out, count);
        push_str(&mut out, ")");
    }
    out
}

/// The characters of `deduped(raw)`.
pub fn dedup_chars(raw: &Vec<char>) -> (out: Vec<char>)
    ensures
        out@ == deduped(raw@),
{
    let ls = split_lines(raw);
    if ls.len() == 0 {
        assert(collapsed(lines(raw@)) =~= Seq::empty());
        let empty: Vec<Vec<char>> = Vec::new();
        assert(views(empty@) =~= Seq::empty());
        return truncate_joined(&empty);
    }
    let mut entries: Vec<Vec<char>> = Vec::new();
    let mut count: usize = 1;
    let mut i: usize = 1;
    proof {
        assert(views(ls@).take(0) =~= Seq::empty());
        assert(views(entries@) =~= Seq::empty());
    }
    while i < ls.len()
        invariant
            1 <= i <= ls.len(),
            1 <= count <= i,
            count == tail_run(views(ls@).take(i as int)),
            views(entries@) == collapsed(views(ls@).take(i - count)),
        decreases ls.len() - i,
    {
        let ghost seen = views(ls@).take(i as int);
        let ghost next = views(ls@).take(i + 1);
        assert(next.drop_last() =~= seen);
        assert(next.last() == ls@[i as int]@);
        assert(next[next.len() - 2] == ls@[i - 1]@);
        if same_chars(&ls[i], &ls[i - 1]) {
            count += 1;
        } else {
            let ghost before = views(entries@);
            entries.push(annotate(&ls[i - 1], count));
            proof {
                assert(seen.last() == ls@[i - 1]@);
                assert(seen.take(seen.len() - count) =~= views(ls@).take(i - count));
                assert(views(entries@) =~= before.push(annotated(ls@[i - 1]@, count as nat)));
                assert(next.take(i as int) =~= seen);
            }
            count = 1;
        }
        i += 1;
    }
    proof {
        let all = views(ls@);
        assert(all.take(ls.len() as int) =~= all);
        assert(all.take(all.len() - count) =~= all.take(ls.len() - count));
    }
    let ghost before = views(entries@);
    entries.push(annotate(&ls[ls.len() - 1], count));
    assert(views(entries@) =~= before.push(annotated(ls@[ls.len() - 1]@, count as nat)));
    truncate_joined(&entries)
}

/// Deduplicate consecutive identical lines, showing counts.
///
/// Only neighbours are merged: a line that comes back after another one
/// starts a new entry. Empty input gives empty output.
pub fn dedup_lines(raw: &str) -> (out: String)
    ensures
        out@ == deduped(raw@),
{
    let chars = chars_of(raw);
    let out = dedup_chars(&chars);
    string_of(&out)
}

} // verus!
