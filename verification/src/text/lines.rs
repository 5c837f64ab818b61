//! Splitting a text into lines, and joining lines to a text.
use crate::text::buffer::{push_chars, push_str, slice};
use crate::text::convert::views;
use crate::text::matching::{find_char, first_index, lemma_first_index, lemma_first_index_is};
use vstd::prelude::*;

verus! {

/// The number of characters of `s` before its first line feed; `s.len()` if
/// it has none.
pub open spec fn line_end(s: Seq<char>) -> int {
    first_index(s, '\n')
}

/// `line` without one trailing carriage return.
pub open spec fn strip_cr(line: Seq<char>) -> Seq<char> {
    if line.len() > 0 && line.last() == '\r' {
        line.drop_last()
    } else {
        line
    }
}

/// The lines of `s`.
///
/// A line ends at a line feed, which is not part of it, nor is a carriage
/// return directly before the line feed. What follows the last line feed is
/// a line of its own unless it is empty, and is kept as it stands.
pub open spec fn lines(s: Seq<char>) -> Seq<Seq<char>>
    decreases s.len(),
    via lines_decreases
{
    if s.len() == 0 {
        Seq::empty()
    } else {
        let n = line_end(s);
        if n == s.len() {
            seq![s]
        } else {
            seq![strip_cr(s.take(n))] + lines(s.skip(n + 1))
        }
    }
}

#[via_fn]
proof fn lines_decreases(s: Seq<char>) {
    lemma_first_index(s, '\n');
}

/// The lines of the characters of `raw`.
pub fn split_lines(raw: &Vec<char>) -> (out: Vec<Vec<char>>)
    ensures
        views(out@) == lines(raw@),
{
    let mut out: Vec<Vec<char>> = Vec::new();
    let mut start: usize = 0;
    assert(raw@.skip(0) =~= raw@);
    assert(views(out@) =~= Seq::empty());
    while start < raw.len()
        invariant
            start <= raw.len(),
            views(out@) + lines(raw@.skip(start as int)) == lines(raw@),
        decreases raw.len() - start,
    {
        let ghost rest = raw@.skip(start as int);
        let ghost before = views(out@);
        let end = find_char(raw, start, '\n');
        if end == raw.len() {
            let line = slice(raw, start, end);
            out.push(line);
            proof {
                assert(raw@.subrange(start as int, end as int) =~= rest);
                assert(views(out@) =~= before.push(rest));
                assert(lines(raw@.skip(end as int)) =~= Seq::empty());
                assert(views(out@) + lines(raw@.skip(end as int)) =~= before + seq![rest]);
            }
            start = end;
        } else {
            let stop = if end > start && raw[end - 1] == '\r' {
                end - 1
            } else {
                end
            };
            let line = slice(raw, start, stop);
            out.push(line);
            proof {
                let whole = rest.take(end - start);
                assert(whole =~= raw@.subrange(start as int, end as int));
                assert(line@ =~= strip_cr(whole));
                assert(rest.skip(end - start + 1) =~= raw@.skip(end + 1));
                assert(views(out@) =~= before.push(line@));
                assert(views(out@) + lines(raw@.skip(end + 1)) =~= before + (seq![line@] + lines(
                    raw@.skip(end + 1),
                )));
            }
            start = end + 1;
        }
    }
    proof {
        assert(lines(raw@.skip(start as int)) =~= Seq::empty());
        assert(views(out@) + Seq::<Seq<char>>::empty() =~= views(out@));
    }
    out
}

/// The parts in order, with `sep` between each two neighbours.
pub open spec fn join(parts: Seq<Seq<char>>, sep: Seq<char>) -> Seq<char>
    decreases parts.len(),
{
    if parts.len() == 0 {
        Seq::empty()
    } else if parts.len() == 1 {
        parts[0]
    } else {
        join(parts.drop_last(), sep) + sep + parts.last()
    }
}

/// Appends `join(parts, sep)`.
pub fn push_joined(out: &mut Vec<char>, parts: &Vec<Vec<char>>, sep: &str)
    ensures
        final(out)@ == old(out)@ + join(views(parts@), sep@),
{
    let mut i: usize = 0;
    assert(old(out)@ + join(views(parts@).take(0), sep@) =~= old(out)@);
    while i < parts.len()
        invariant
            i <= parts.len(),
            out@ == old(out)@ + join(views(parts@).take(i as int), sep@),
        decreases parts.len() - i,
    {
        let ghost done = views(parts@).take(i as int);
        let ghost next = views(parts@).take(i + 1);
        assert(next.drop_last() =~= done);
        assert(next.last() == parts@[i as int]@);
        if i > 0 {
            push_str(out, sep);
        }
        push_chars(out, &parts[i]);
        proof {
            if i > 0 {
                assert(out@ =~= old(out)@ + (join(done, sep@) + sep@ + parts@[i as int]@));
            } else {
                assert(join(done, sep@) =~= Seq::empty());
                assert(out@ =~= old(out)@ + parts@[i as int]@);
            }
        }
        i += 1;
    }
    assert(views(parts@).take(parts.len() as int) =~= views(parts@));
}

/// Joining unfolds at the front as it does at the back.
pub proof fn lemma_join_first(first: Seq<char>, rest: Seq<Seq<char>>, sep: Seq<char>)
    ensures
        join(seq![first] + rest, sep) == if rest.len() == 0 {
            first
        } else {
            first + sep + join(rest, sep)
        },
    decreases rest.len(),
{
    let all = seq![first] + rest;
    if rest.len() == 0 {
        assert(all[0] == first);
    } else if rest.len() == 1 {
        assert(all.drop_last() =~= seq![first]);
        assert(all.last() == rest[0]);
        assert(join(all.drop_last(), sep) == first);
    } else {
        lemma_join_first(first, rest.drop_last(), sep);
        assert(all.drop_last() =~= seq![first] + rest.drop_last());
        assert(all.last() == rest.last());
        assert(join(all, sep) =~= first + sep + join(rest, sep));
    }
}

/// `s` holds a carriage return directly before a line feed.
pub open spec fn has_crlf(s: Seq<char>) -> bool {
    exists|i: int| 0 <= i && i + 1 < s.len() && s[i] == '\r' && #[trigger] s[i + 1] == '\n'
}

/// A text that is not empty has a line.
pub proof fn lemma_lines_nonempty(s: Seq<char>)
    requires
        s.len() > 0,
    ensures
        lines(s).len() > 0,
{
    lemma_first_index(s, '\n');
}

/// No line holds a line feed.
pub proof fn lemma_lines_hold_no_line_feed(s: Seq<char>, i: int)
    requires
        0 <= i < lines(s).len(),
    ensures
        !lines(s)[i].contains('\n'),
    decreases s.len(),
{
    lemma_first_index(s, '\n');
    let n = line_end(s);
    if s.len() == 0 {
    } else if n == s.len() {
        assert(lines(s)[0] == s);
    } else if i == 0 {
        let first = strip_cr(s.take(n));
        assert(lines(s)[0] == first);
        assert forall|k: int| 0 <= k < first.len() implies first[k] != '\n' by {
            assert(first[k] == s[k]);
        }
    } else {
        lemma_lines_hold_no_line_feed(s.skip(n + 1), i - 1);
        assert(lines(s)[i] == lines(s.skip(n + 1))[i - 1]);
    }
}

/// Splitting into lines and joining them again gives back a text that
/// neither ends with a line feed nor holds a carriage return before one.
pub proof fn lemma_join_lines(s: Seq<char>)
    requires
        s.len() > 0 ==> s.last() != '\n',
        !has_crlf(s),
    ensures
        join(lines(s), "\n"@) == s,
    decreases s.len(),
{
    reveal_strlit("\n");
    let sep = "\n"@;
    assert(sep =~= seq!['\n']);
    lemma_first_index(s, '\n');
    let n = line_end(s);
    if s.len() == 0 {
    } else if n == s.len() {
    } else {
        let head = s.take(n);
        let rest = s.skip(n + 1);
        assert(strip_cr(head) == head) by {
            if head.len() > 0 && head.last() == '\r' {
                assert(s[n - 1] == '\r' && s[(n - 1) + 1] == '\n');
            }
        }
        assert(n + 1 < s.len());
        assert(rest.last() == s.last());
        assert(!has_crlf(rest)) by {
            if has_crlf(rest) {
                let i = choose|i: int|
                    0 <= i && i + 1 < rest.len() && rest[i] == '\r' && #[trigger] rest[i + 1]
                        == '\n';
                assert(s[n + 1 + i] == '\r' && s[(n + 1 + i) + 1] == '\n');
            }
        }
        lemma_join_lines(rest);
        lemma_lines_nonempty(rest);
        lemma_join_first(head, lines(rest), sep);
        assert(head + sep + rest =~= s);
    }
}

/// The lines of a text that was joined from parts without line feeds are
/// those parts, but for a carriage return at the end of a part and for what
/// an empty last part leaves out.
pub proof fn lemma_lines_of_join(parts: Seq<Seq<char>>)
    requires
        forall|i: int| 0 <= i < parts.len() ==> !(#[trigger] parts[i]).contains('\n'),
    ensures
        lines(join(parts, "\n"@)).len() <= parts.len(),
        forall|i: int|
            0 <= i < lines(join(parts, "\n"@)).len() ==> (#[trigger] lines(
                join(parts, "\n"@),
            )[i]) == parts[i] || lines(join(parts, "\n"@))[i] == strip_cr(parts[i]),
    decreases parts.len(),
{
    reveal_strlit("\n");
    let sep = "\n"@;
    assert(sep =~= seq!['\n']);
    if parts.len() == 0 {
    } else {
        let first = parts[0];
        let rest = parts.drop_first();
        assert(parts =~= seq![first] + rest);
        lemma_join_first(first, rest, sep);
        let text = join(parts, sep);
        assert(!first.contains('\n'));
        if rest.len() == 0 {
            assert(text == first);
            if first.len() > 0 {
                lemma_first_index_is(first, '\n', first.len() as int);
            }
        } else {
            assert(text == first + sep + join(rest, sep));
            let n = first.len() as int;
            assert forall|k: int| 0 <= k < n implies text[k] != '\n' by {
                assert(text[k] == first[k]);
            }
            assert(text[n] == '\n');
            lemma_first_index_is(text, '\n', n);
            assert(text.take(n) =~= first);
            assert(text.skip(n + 1) =~= join(rest, sep));
            assert forall|i: int| 0 <= i < rest.len() implies !(#[trigger] rest[i]).contains(
                '\n',
            ) by {
                assert(rest[i] == parts[i + 1]);
            }
            lemma_lines_of_join(rest);
            let tail = lines(join(rest, sep));
            assert(lines(text) =~= seq![strip_cr(first)] + tail);
            assert forall|i: int| 0 <= i < lines(text).len() implies (#[trigger] lines(text)[i])
                == parts[i] || lines(text)[i] == strip_cr(parts[i]) by {
                if i > 0 {
                    assert(lines(text)[i] == tail[i - 1]);
                    assert(rest[i - 1] == parts[i]);
                }
            }
        }
    }
}

/// A joined text is at least as long as each of its parts, and holds a
/// separator if it has two parts.
pub proof fn lemma_join_len(parts: Seq<Seq<char>>, sep: Seq<char>, i: int)
    requires
        0 <= i < parts.len(),
    ensures
        join(parts, sep).len() >= parts[i].len(),
        parts.len() >= 2 ==> join(parts, sep).len() >= sep.len(),
    decreases parts.len(),
{
    if parts.len() >= 2 {
        if i < parts.len() - 1 {
            lemma_join_len(parts.drop_last(), sep, i);
        }
    }
}

/// `s` is empty or a line ending alone: it has no line, or one line that
/// is empty.
pub open spec fn is_bare(s: Seq<char>) -> bool {
    s.len() == 0 || s == seq!['\n'] || s == seq!['\r', '\n']
}

/// A text whose only line is empty is a line ending alone.
pub proof fn lemma_one_empty_line(s: Seq<char>)
    requires
        lines(s) == seq![Seq::<char>::empty()],
    ensures
        is_bare(s),
{
    lemma_first_index(s, '\n');
    let n = line_end(s);
    if s.len() == 0 {
    } else if n == s.len() {
        assert(lines(s)[0] == s);
    } else {
        let head = s.take(n);
        let rest = s.skip(n + 1);
        assert(lines(s).len() == 1 + lines(rest).len());
        if rest.len() > 0 {
            lemma_lines_nonempty(rest);
        }
        assert(lines(s)[0] == strip_cr(head));
        if head.len() == 0 {
            assert(s =~= seq!['\n']);
        } else {
            assert(head.len() == 1 && head[0] == '\r');
            assert(s[0] == head[0]);
            assert(s =~= seq!['\r', '\n']);
        }
    }
}

} // verus!
