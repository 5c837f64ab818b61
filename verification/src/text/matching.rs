//! Prefixes, suffixes and occurrences.
use crate::text::buffer::slice;
use vstd::prelude::*;

verus! {

/// `p` occurs in `s` starting at index `i`.
pub open spec fn occurs_at(s: Seq<char>, p: Seq<char>, i: int) -> bool {
    0 <= i && i + p.len() <= s.len() && s.subrange(i, i + p.len()) == p
}

/// `s` begins with `p`.
pub open spec fn starts_with(s: Seq<char>, p: Seq<char>) -> bool {
    occurs_at(s, p, 0)
}

/// `s` ends with `p`.
pub open spec fn ends_with(s: Seq<char>, p: Seq<char>) -> bool {
    occurs_at(s, p, s.len() - p.len())
}

/// `p` occurs somewhere in `s`.
pub open spec fn contains(s: Seq<char>, p: Seq<char>) -> bool {
    exists|i: int| occurs_at(s, p, i)
}

/// `s` begins with the character `c`.
pub open spec fn starts_with_char(s: Seq<char>, c: char) -> bool {
    s.len() > 0 && s[0] == c
}

/// Whether the literal `p` occurs in `s` at index `at`.
pub fn has_at(s: &Vec<char>, at: usize, p: &str) -> (b: bool)
    requires
        at <= s.len(),
    ensures
        b == occurs_at(s@, p@, at as int),
{
    let mut i: usize = at;
    for c in it: p.chars()
        invariant
            i == at + it.index(),
            i <= s.len(),
            it.seq() == p@,
            forall|k: int| 0 <= k < it.index() ==> s@[at + k] == p@[k],
    {
        if i >= s.len() || s[i] != c {
            proof {
                if occurs_at(s@, p@, at as int) {
                    let k = it.index() as int;
                    assert(s@.subrange(at as int, at + p@.len())[k] == p@[k]);
                }
            }
            return false;
        }
        i += 1;
    }
    assert(s@.subrange(at as int, at + p@.len()) =~= p@);
    true
}

/// Whether `s` begins with the literal `p`.
pub fn has_prefix(s: &Vec<char>, p: &str) -> (b: bool)
    ensures
        b == starts_with(s@, p@),
{
    has_at(s, 0, p)
}

/// Whether `s` ends with the literal `p`.
pub fn has_suffix(s: &Vec<char>, p: &str) -> (b: bool)
    ensures
        b == ends_with(s@, p@),
{
    let n = p.unicode_len();
    if n > s.len() {
        false
    } else {
        has_at(s, s.len() - n, p)
    }
}

/// Whether the literal `p` occurs somewhere in `s`.
pub fn has_substr(s: &Vec<char>, p: &str) -> (b: bool)
    ensures
        b == contains(s@, p@),
{
    let n = p.unicode_len();
    if n > s.len() {
        return false;
    }
    let last = s.len() - n;
    let mut i: usize = 0;
    while i < last
        invariant
            last == s.len() - n,
            n == p@.len(),
            i <= last,
            forall|k: int| 0 <= k < i ==> !occurs_at(s@, p@, k),
        decreases last - i,
    {
        if has_at(s, i, p) {
            return true;
        }
        i += 1;
    }
    has_at(s, last, p)
}

/// Whether `c` occurs in `s`.
pub fn has_char(s: &Vec<char>, c: char) -> (b: bool)
    ensures
        b == s@.contains(c),
{
    let mut i: usize = 0;
    while i < s.len()
        invariant
            i <= s.len(),
            forall|k: int| 0 <= k < i ==> s@[k] != c,
        decreases s.len() - i,
    {
        if s[i] == c {
            return true;
        }
        i += 1;
    }
    false
}

/// Whether `s` begins with `c`.
pub fn has_first_char(s: &Vec<char>, c: char) -> (b: bool)
    ensures
        b == starts_with_char(s@, c),
{
    s.len() > 0 && s[0] == c
}

/// Whether the characters equal those of the literal.
pub fn is_literal(s: &Vec<char>, p: &str) -> (b: bool)
    ensures
        b == (s@ == p@),
{
    let n = p.unicode_len();
    let b = n == s.len() && has_at(s, 0, p);
    proof {
        if b {
            assert(s@.subrange(0, s@.len() as int) =~= s@);
        }
        if s@ == p@ {
            assert(s@.subrange(0, s@.len() as int) =~= s@);
        }
    }
    b
}

/// `s` after removing the prefix `p` as often as it occurs at the front.
pub open spec fn strip_prefixes(s: Seq<char>, p: Seq<char>) -> Seq<char>
    decreases s.len(),
{
    if p.len() > 0 && starts_with(s, p) {
        strip_prefixes(s.skip(p.len() as int), p)
    } else {
        s
    }
}

/// The characters of `strip_prefixes(s, p)`.
pub fn without_prefixes(s: &Vec<char>, p: &str) -> (out: Vec<char>)
    ensures
        out@ == strip_prefixes(s@, p@),
{
    let n = p.unicode_len();
    let mut at: usize = 0;
    assert(s@.skip(0) =~= s@);
    while n > 0 && has_at(s, at, p)
        invariant
            at <= s.len(),
            n == p@.len(),
            strip_prefixes(s@, p@) == strip_prefixes(s@.skip(at as int), p@),
        decreases s.len() - at,
    {
        proof {
            let rest = s@.skip(at as int);
            assert(rest.subrange(0, n as int) =~= s@.subrange(at as int, at + n));
            assert(rest.skip(n as int) =~= s@.skip(at + n));
        }
        at += n;
    }
    proof {
        let rest = s@.skip(at as int);
        if at + n <= s@.len() {
            assert(rest.subrange(0, n as int) =~= s@.subrange(at as int, at + n));
        }
        assert(s@.subrange(at as int, s@.len() as int) =~= rest);
    }
    slice(s, at, s.len())
}

/// What follows the last occurrence of `sep` in `s`; all of `s` if there
/// is none.
pub open spec fn last_field(s: Seq<char>, sep: char) -> Seq<char>
    decreases s.len(),
{
    if s.len() == 0 {
        s
    } else if s.last() == sep {
        Seq::empty()
    } else {
        last_field(s.drop_last(), sep).push(s.last())
    }
}

/// The characters of `last_field(s, sep)`.
pub fn last_field_of(s: &Vec<char>, sep: char) -> (out: Vec<char>)
    ensures
        out@ == last_field(s@, sep),
{
    let mut from: usize = s.len();
    assert(s@.subrange(from as int, s@.len() as int) =~= Seq::empty());
    assert(s@.take(from as int) =~= s@);
    while from > 0 && s[from - 1] != sep
        invariant
            from <= s.len(),
            last_field(s@, sep) == last_field(s@.take(from as int), sep) + s@.subrange(
                from as int,
                s@.len() as int,
            ),
        decreases from,
    {
        proof {
            let head = s@.take(from as int);
            assert(head.drop_last() =~= s@.take(from - 1));
            assert(last_field(head.drop_last(), sep).push(head.last()) + s@.subrange(
                from as int,
                s@.len() as int,
            ) =~= last_field(head.drop_last(), sep) + s@.subrange(from - 1, s@.len() as int));
        }
        from -= 1;
    }
    proof {
        let head = s@.take(from as int);
        assert(last_field(head, sep) =~= Seq::empty());
        assert(Seq::<char>::empty() + s@.subrange(from as int, s@.len() as int) =~= s@.subrange(
            from as int,
            s@.len() as int,
        ));
    }
    slice(s, from, s.len())
}

/// The index of the first `c` in `s`; `s.len()` if it has none.
pub open spec fn first_index(s: Seq<char>, c: char) -> int
    decreases s.len(),
{
    if s.len() == 0 || s.first() == c {
        0
    } else {
        1 + first_index(s.drop_first(), c)
    }
}

/// `first_index(s, c)` is an index of `c` with no `c` before it, or the
/// length of `s`, which then holds no `c`.
pub proof fn lemma_first_index(s: Seq<char>, c: char)
    ensures
        0 <= first_index(s, c) <= s.len(),
        forall|k: int| 0 <= k < first_index(s, c) ==> s[k] != c,
        first_index(s, c) < s.len() ==> s[first_index(s, c)] == c,
    decreases s.len(),
{
    if s.len() == 0 || s.first() == c {
    } else {
        let rest = s.drop_first();
        lemma_first_index(rest, c);
        assert forall|k: int| 0 <= k < first_index(s, c) implies s[k] != c by {
            if k > 0 {
                assert(s[k] == rest[k - 1]);
            }
        }
        if first_index(s, c) < s.len() {
            assert(s[first_index(s, c)] == rest[first_index(rest, c)]);
        }
    }
}

/// An index that holds `c`, with no `c` before it, is `first_index(s, c)`;
/// so is the length of an `s` without `c`.
pub proof fn lemma_first_index_is(s: Seq<char>, c: char, n: int)
    requires
        0 <= n <= s.len(),
        forall|k: int| 0 <= k < n ==> s[k] != c,
        n < s.len() ==> s[n] == c,
    ensures
        first_index(s, c) == n,
{
    lemma_first_index(s, c);
    let m = first_index(s, c);
    if m < n {
        assert(s[m] == c);
    } else if n < m {
        assert(s[n] != c);
    }
}

/// The index of the first `c` in `s` at or after `from`; `s.len()` if there
/// is none.
pub fn find_char(s: &Vec<char>, from: usize, c: char) -> (at: usize)
    requires
        from <= s.len(),
    ensures
        from <= at <= s.len(),
        at - from == first_index(s@.skip(from as int), c),
{
    let mut at: usize = from;
    while at < s.len() && s[at] != c
        invariant
            from <= at <= s.len(),
            forall|k: int| from <= k < at ==> s@[k] != c,
        decreases s.len() - at,
    {
        at += 1;
    }
    proof {
        let rest = s@.skip(from as int);
        assert forall|k: int| 0 <= k < at - from implies rest[k] != c by {
            assert(rest[k] == s@[from + k]);
        }
        lemma_first_index_is(rest, c, at - from);
    }
    at
}

} // verus!
