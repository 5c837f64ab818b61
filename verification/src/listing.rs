//! Sequences of lines: choosing some of them, and laying them out.
use crate::text::buffer::{push_chars, push_str, slice};
use crate::text::convert::views;
use crate::text::number::{decimal, push_decimal};
use crate::text::space::{trim, trimmed};
use vstd::prelude::*;

verus! {

/// The lines that `keep` accepts, in their order.
///
/// `wanted` states in the model what `keep` computes.
pub(crate) fn select<F: Fn(&Vec<char>) -> bool>(
    lines: &Vec<Vec<char>>,
    keep: F,
    Ghost(wanted): Ghost<spec_fn(Seq<char>) -> bool>,
) -> (out: Vec<Vec<char>>)
    requires
        forall|l: &Vec<char>| call_requires(keep, (l,)),
        forall|l: &Vec<char>, b: bool| call_ensures(keep, (l,), b) ==> b == wanted(l@),
    ensures
        views(out@) == views(lines@).filter(wanted),
{
    let mut out: Vec<Vec<char>> = Vec::new();
    let mut i: usize = 0;
    proof {
        reveal(Seq::filter);
        assert(views(lines@).take(0) =~= Seq::empty());
        assert(views(out@) =~= Seq::empty());
    }
    while i < lines.len()
        invariant
            i <= lines.len(),
            forall|l: &Vec<char>| call_requires(keep, (l,)),
            forall|l: &Vec<char>, b: bool| call_ensures(keep, (l,), b) ==> b == wanted(l@),
            views(out@) == views(lines@).take(i as int).filter(wanted),
        decreases lines.len() - i,
    {
        let ghost before = views(out@);
        proof {
            let seen = views(lines@).take(i as int);
            assert(views(lines@).take(i + 1) =~= seen.push(lines@[i as int]@));
            seen.lemma_filter_push(lines@[i as int]@, wanted);
        }
        if keep(&lines[i]) {
            out.push(lines[i].clone());
            assert(views(out@) =~= before.push(lines@[i as int]@));
        }
        i += 1;
    }
    assert(views(lines@).take(lines.len() as int) =~= views(lines@));
    out
}

/// Where `wanted` accepts no line, nothing is chosen.
pub proof fn lemma_filter_none(lines: Seq<Seq<char>>, wanted: spec_fn(Seq<char>) -> bool)
    requires
        forall|i: int| 0 <= i < lines.len() ==> !wanted(#[trigger] lines[i]),
    ensures
        lines.filter(wanted) == Seq::<Seq<char>>::empty(),
        first_of(lines, wanted) is None,
        last_of(lines, wanted) is None,
    decreases lines.len(),
{
    reveal(Seq::filter);
    if lines.len() > 0 {
        let before = lines.drop_last();
        assert forall|i: int| 0 <= i < before.len() implies !wanted(#[trigger] before[i]) by {
            assert(before[i] == lines[i]);
        }
        lemma_filter_none(before, wanted);
        assert(!wanted(lines[lines.len() - 1]));
    }
}

/// Every line without its leading and trailing whitespace.
pub open spec fn trim_each(lines: Seq<Seq<char>>) -> Seq<Seq<char>> {
    lines.map_values(|l: Seq<char>| trim(l))
}

/// The lines, each trimmed.
pub fn trim_all(lines: &Vec<Vec<char>>) -> (out: Vec<Vec<char>>)
    ensures
        views(out@) == trim_each(views(lines@)),
{
    let mut out: Vec<Vec<char>> = Vec::new();
    let mut i: usize = 0;
    while i < lines.len()
        invariant
            i <= lines.len(),
            out.len() == i,
            forall|k: int| 0 <= k < i ==> out@[k]@ == trim(lines@[k]@),
        decreases lines.len() - i,
    {
        out.push(trimmed(&lines[i]));
        i += 1;
    }
    assert(views(out@) =~= trim_each(views(lines@)));
    out
}

/// The first `n` items, or all of them if there are fewer.
pub open spec fn first_n(items: Seq<Seq<char>>, n: nat) -> Seq<Seq<char>> {
    if items.len() <= n {
        items
    } else {
        items.take(n as int)
    }
}

/// `line` cut after `width` characters, with `mark` behind the cut.
pub open spec fn clip(line: Seq<char>, width: nat, mark: Seq<char>) -> Seq<char> {
    if line.len() > width {
        line.take(width as int) + mark
    } else {
        line
    }
}

/// Every line clipped to `width` characters.
pub open spec fn clip_each(lines: Seq<Seq<char>>, width: nat, mark: Seq<char>) -> Seq<Seq<char>> {
    lines.map_values(|l: Seq<char>| clip(l, width, mark))
}

/// The characters of `clip(line, width, mark)`.
pub fn clipped(line: &Vec<char>, width: usize, mark: &str) -> (out: Vec<char>)
    ensures
        out@ == clip(line@, width as nat, mark@),
{
    if line.len() > width {
        let mut out = slice(line, 0, width);
        push_str(&mut out, mark);
        out
    } else {
        line.clone()
    }
}

/// The first `cap` lines, each clipped to `width` characters.
pub fn clip_first(lines: &Vec<Vec<char>>, cap: usize, width: usize, mark: &str) -> (out: Vec<
    Vec<char>,
>)
    ensures
        views(out@) == clip_each(first_n(views(lines@), cap as nat), width as nat, mark@),
{
    let n = if lines.len() <= cap {
        lines.len()
    } else {
        cap
    };
    assert(first_n(views(lines@), cap as nat) =~= views(lines@).take(n as int));
    let mut out: Vec<Vec<char>> = Vec::new();
    let mut i: usize = 0;
    while i < n
        invariant
            i <= n <= lines.len(),
            out.len() == i,
            forall|k: int| 0 <= k < i ==> out@[k]@ == clip(lines@[k]@, width as nat, mark@),
        decreases n - i,
    {
        out.push(clipped(&lines[i], width, mark));
        i += 1;
    }
    assert(views(out@) =~= clip_each(views(lines@).take(n as int), width as nat, mark@));
    out
}

/// The first `cap` lines.
pub fn take_first(lines: &Vec<Vec<char>>, cap: usize) -> (out: Vec<Vec<char>>)
    ensures
        views(out@) == first_n(views(lines@), cap as nat),
{
    let n = if lines.len() <= cap {
        lines.len()
    } else {
        cap
    };
    assert(first_n(views(lines@), cap as nat) =~= views(lines@).take(n as int));
    let mut out: Vec<Vec<char>> = Vec::new();
    let mut i: usize = 0;
    while i < n
        invariant
            i <= n <= lines.len(),
            out.len() == i,
            forall|k: int| 0 <= k < i ==> out@[k]@ == lines@[k]@,
        decreases n - i,
    {
        out.push(lines[i].clone());
        i += 1;
    }
    assert(views(out@) =~= views(lines@).take(n as int));
    out
}

/// Each item on a line of its own, behind `indent`.
pub open spec fn block(items: Seq<Seq<char>>, indent: Seq<char>) -> Seq<char>
    decreases items.len(),
{
    if items.len() == 0 {
        Seq::empty()
    } else {
        block(items.drop_last(), indent) + indent + items.last() + seq!['\n']
    }
}

/// Appends the first `cap` items as a block.
pub fn push_block(out: &mut Vec<char>, items: &Vec<Vec<char>>, cap: usize, indent: &str)
    ensures
        final(out)@ == old(out)@ + block(first_n(views(items@), cap as nat), indent@),
{
    let n = if items.len() <= cap {
        items.len()
    } else {
        cap
    };
    let ghost shown = first_n(views(items@), cap as nat);
    assert(shown =~= views(items@).take(n as int));
    let mut i: usize = 0;
    assert(old(out)@ + block(shown.take(0), indent@) =~= old(out)@);
    while i < n
        invariant
            i <= n <= items.len(),
            shown == views(items@).take(n as int),
            out@ == old(out)@ + block(shown.take(i as int), indent@),
        decreases n - i,
    {
        let ghost done = shown.take(i as int);
        let ghost next = shown.take(i + 1);
        assert(next.drop_last() =~= done);
        assert(next.last() == items@[i as int]@);
        push_str(out, indent);
        push_chars(out, &items[i]);
        out.push('\n');
        assert(out@ =~= old(out)@ + (block(done, indent@) + indent@ + items@[i as int]@
            + seq!['\n']));
        i += 1;
    }
    assert(shown.take(n as int) =~= shown);
}

/// The note that says how many items beyond `cap` were left out; nothing if
/// none was.
pub open spec fn overflow(len: nat, cap: nat, tail: Seq<char>) -> Seq<char> {
    if len > cap {
        "  … +"@ + decimal((len - cap) as nat) + tail
    } else {
        Seq::empty()
    }
}

/// Appends the note on what was left out, if anything was.
pub fn push_overflow(out: &mut Vec<char>, len: usize, cap: usize, tail: &str)
    ensures
        final(out)@ == old(out)@ + overflow(len as nat, cap as nat, tail@),
{
    if len > cap {
        push_str(out, "  … +");
        push_decimal(out, len - cap);
        push_str(out, tail);
        assert(out@ =~= old(out)@ + ("  … +"@ + decimal((len - cap) as nat) + tail@));
    } else {
        assert(out@ =~= old(out)@ + Seq::<char>::empty());
    }
}

/// The first `cap` items, indented by two spaces, and a note on the rest.
pub open spec fn listing(items: Seq<Seq<char>>, cap: nat) -> Seq<char> {
    block(first_n(items, cap), "  "@) + overflow(items.len(), cap, " more\n"@)
}

/// Appends the listing of the items.
pub fn push_listing(out: &mut Vec<char>, items: &Vec<Vec<char>>, cap: usize)
    ensures
        final(out)@ == old(out)@ + listing(views(items@), cap as nat),
{
    push_block(out, items, cap, "  ");
    push_overflow(out, items.len(), cap, " more\n");
    assert(out@ =~= old(out)@ + (block(first_n(views(items@), cap as nat), "  "@) + overflow(
        items@.len(),
        cap as nat,
        " more\n"@,
    )));
}

/// The first line that `wanted` accepts, if any.
pub open spec fn first_of(lines: Seq<Seq<char>>, wanted: spec_fn(Seq<char>) -> bool) -> Option<
    Seq<char>,
> {
    let found = lines.filter(wanted);
    if found.len() > 0 {
        Some(found.first())
    } else {
        None
    }
}

/// The last line that `wanted` accepts, if any.
pub open spec fn last_of(lines: Seq<Seq<char>>, wanted: spec_fn(Seq<char>) -> bool) -> Option<
    Seq<char>,
> {
    let found = lines.filter(wanted);
    if found.len() > 0 {
        Some(found.last())
    } else {
        None
    }
}

/// The view of an optional line.
pub open spec fn view_of(line: Option<Vec<char>>) -> Option<Seq<char>> {
    match line {
        Some(l) => Some(l@),
        None => None,
    }
}

/// The first line that `keep` accepts, if any.
///
/// `wanted` states in the model what `keep` computes.
pub(crate) fn find_first<F: Fn(&Vec<char>) -> bool>(
    lines: &Vec<Vec<char>>,
    keep: F,
    Ghost(wanted): Ghost<spec_fn(Seq<char>) -> bool>,
) -> (out: Option<Vec<char>>)
    requires
        forall|l: &Vec<char>| call_requires(keep, (l,)),
        forall|l: &Vec<char>, b: bool| call_ensures(keep, (l,), b) ==> b == wanted(l@),
    ensures
        view_of(out) == first_of(views(lines@), wanted),
{
    let found = select(lines, keep, Ghost(wanted));
    if found.len() > 0 {
        Some(found[0].clone())
    } else {
        None
    }
}

/// The last line that `keep` accepts, if any.
///
/// `wanted` states in the model what `keep` computes.
pub(crate) fn find_last<F: Fn(&Vec<char>) -> bool>(
    lines: &Vec<Vec<char>>,
    keep: F,
    Ghost(wanted): Ghost<spec_fn(Seq<char>) -> bool>,
) -> (out: Option<Vec<char>>)
    requires
        forall|l: &Vec<char>| call_requires(keep, (l,)),
        forall|l: &Vec<char>, b: bool| call_ensures(keep, (l,), b) ==> b == wanted(l@),
    ensures
        view_of(out) == last_of(views(lines@), wanted),
{
    let found = select(lines, keep, Ghost(wanted));
    if found.len() > 0 {
        Some(found[found.len() - 1].clone())
    } else {
        None
    }
}

/// `line` and a line feed, if there is a line.
pub open spec fn optional_line(line: Option<Seq<char>>) -> Seq<char> {
    match line {
        Some(l) => l + "\n"@,
        None => Seq::empty(),
    }
}

/// Appends the line and a line feed, if there is a line.
pub fn push_optional_line(out: &mut Vec<char>, line: &Option<Vec<char>>)
    ensures
        final(out)@ == old(out)@ + optional_line(view_of(*line)),
{
    match line {
        Some(l) => {
            push_chars(out, l);
            push_str(out, "\n");
            assert(out@ =~= old(out)@ + (l@ + "\n"@));
        },
        None => {
            assert(out@ =~= old(out)@ + Seq::<char>::empty());
        },
    }
}

/// The trimmed line, if there is a line.
pub open spec fn trimmed_line(line: Option<Seq<char>>) -> Option<Seq<char>> {
    match line {
        Some(l) => Some(trim(l)),
        None => None,
    }
}

/// The note on the number `n` of something, if it is not zero.
pub open spec fn count_note(head: Seq<char>, n: nat, tail: Seq<char>) -> Seq<char> {
    if n > 0 {
        head + decimal(n) + tail
    } else {
        Seq::empty()
    }
}

/// The trimmed line, if there is a line.
pub fn trim_optional(line: &Option<Vec<char>>) -> (out: Option<Vec<char>>)
    ensures
        view_of(out) == trimmed_line(view_of(*line)),
{
    match line {
        Some(l) => Some(trimmed(l)),
        None => None,
    }
}

/// Appends the note on the number `n`, if it is not zero.
pub fn push_count_note(out: &mut Vec<char>, head: &str, n: usize, tail: &str)
    ensures
        final(out)@ == old(out)@ + count_note(head@, n as nat, tail@),
{
    if n > 0 {
        push_str(out, head);
        push_decimal(out, n);
        push_str(out, tail);
        assert(out@ =~= old(out)@ + (head@ + decimal(n as nat) + tail@));
    } else {
        assert(out@ =~= old(out)@ + Seq::<char>::empty());
    }
}

} // verus!
