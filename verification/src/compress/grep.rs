//! Summaries of text-search output: the matches, grouped by file.
use crate::compress::Compressor;
use crate::listing::{
    block, clip_each, clip_first, first_n, overflow, push_block, push_overflow,
};
use crate::text::buffer::{push_chars, push_str, same_chars, slice};
use crate::text::convert::{chars_of, string_of, views};
use crate::text::lines::{lines, split_lines};
use crate::text::matching::{find_char, first_index};
use crate::text::number::{decimal, push_decimal};
use crate::text::space::{blank, is_blank};
use vstd::prelude::*;

verus! {

/// The most matches shown for one file.
pub const MAX_HITS: usize = 10;

/// The most characters shown of one match.
pub const MAX_HIT_LEN: usize = 200;

/// The matches that follow one another in one file.
pub ghost struct Hits {
    pub file: Seq<char>,
    pub hits: Seq<Seq<char>>,
}

/// The matches of one file, as they are collected.
pub struct FileHits {
    pub file: Vec<char>,
    pub hits: Vec<Vec<char>>,
}

impl View for FileHits {
    type V = Hits;

    open spec fn view(&self) -> Hits {
        Hits { file: self.file@, hits: views(self.hits@) }
    }
}

/// The models of a vector of groups.
pub open spec fn group_views(groups: Seq<FileHits>) -> Seq<Hits> {
    groups.map_values(|g: FileHits| g@)
}

/// The index of the first group of `file`; the number of groups if there
/// is none.
pub open spec fn group_index(groups: Seq<Hits>, file: Seq<char>) -> int
    decreases groups.len(),
{
    if groups.len() == 0 || groups.first().file == file {
        0
    } else {
        1 + group_index(groups.drop_first(), file)
    }
}

/// The groups with one more match: it joins the group of its file, or
/// opens a new group behind the others if its file has none.
pub open spec fn with_hit(groups: Seq<Hits>, file: Seq<char>, hit: Seq<char>) -> Seq<Hits> {
    let at = group_index(groups, file);
    if at < groups.len() {
        groups.update(at, Hits { file, hits: groups[at].hits.push(hit) })
    } else {
        groups.push(Hits { file, hits: seq![hit] })
    }
}

/// The groups that the lines `ls` form: one for each file, in the order in
/// which the files first occur, with the matches of the file in their
/// order.
///
/// A line names its file before its first colon, and the match behind it.
/// A line without a colon belongs to no group.
pub open spec fn grouped(ls: Seq<Seq<char>>) -> Seq<Hits>
    decreases ls.len(),
{
    if ls.len() == 0 {
        Seq::empty()
    } else {
        let before = grouped(ls.drop_last());
        let l = ls.last();
        let colon = first_index(l, ':');
        if colon == l.len() {
            before
        } else {
            with_hit(before, l.take(colon), l.skip(colon + 1))
        }
    }
}

/// `group_index` is an index of a group of the file with none before it,
/// or the number of groups, none of which is then of the file.
pub proof fn lemma_group_index(groups: Seq<Hits>, file: Seq<char>)
    ensures
        0 <= group_index(groups, file) <= groups.len(),
        forall|k: int| 0 <= k < group_index(groups, file) ==> groups[k].file != file,
        group_index(groups, file) < groups.len() ==> groups[group_index(groups, file)].file
            == file,
    decreases groups.len(),
{
    if groups.len() == 0 || groups.first().file == file {
    } else {
        let rest = groups.drop_first();
        lemma_group_index(rest, file);
        assert forall|k: int| 0 <= k < group_index(groups, file) implies groups[k].file
            != file by {
            if k > 0 {
                assert(groups[k] == rest[k - 1]);
            }
        }
        if group_index(groups, file) < groups.len() {
            assert(groups[group_index(groups, file)] == rest[group_index(rest, file)]);
        }
    }
}

/// No two groups are of the same file.
pub open spec fn files_distinct(groups: Seq<Hits>) -> bool {
    forall|i: int, j: int|
        0 <= i < j < groups.len() ==> (#[trigger] groups[i]).file != (#[trigger] groups[j]).file
}

/// Every file has one group only.
pub proof fn lemma_grouped_distinct(ls: Seq<Seq<char>>)
    ensures
        files_distinct(grouped(ls)),
    decreases ls.len(),
{
    if ls.len() > 0 {
        let before = grouped(ls.drop_last());
        lemma_grouped_distinct(ls.drop_last());
        let l = ls.last();
        let colon = first_index(l, ':');
        if colon != l.len() {
            lemma_group_index(before, l.take(colon));
        }
    }
}

/// The section of one group: its file and number of matches, the first
/// matches, each cut to a bounded length, and a note on the rest.
pub open spec fn group_text(g: Hits) -> Seq<char> {
    "\n── "@ + g.file + " ("@ + decimal(g.hits.len()) + " hits)\n"@ + block(
        clip_each(first_n(g.hits, MAX_HITS as nat), MAX_HIT_LEN as nat, ""@),
        "  "@,
    ) + overflow(g.hits.len(), MAX_HITS as nat, " more\n"@)
}

/// The sections of the groups, in their order.
pub open spec fn groups_text(gs: Seq<Hits>) -> Seq<char>
    decreases gs.len(),
{
    if gs.len() == 0 {
        Seq::empty()
    } else {
        groups_text(gs.drop_last()) + group_text(gs.last())
    }
}

/// The summary of search output.
pub open spec fn grep_summary(raw: Seq<char>) -> Seq<char> {
    if is_blank(raw) {
        "[grep] no matches"@
    } else {
        let ls = lines(raw);
        let gs = grouped(ls);
        "[grep] "@ + decimal(ls.len()) + " matches in "@ + decimal(gs.len()) + " files\n"@
            + groups_text(gs)
    }
}

fn find_group(groups: &Vec<FileHits>, file: &Vec<char>) -> (at: usize)
    ensures
        at == group_index(group_views(groups@), file@),
{
    let mut at: usize = 0;
    while at < groups.len() && !same_chars(&groups[at].file, file)
        invariant
            at <= groups.len(),
            forall|k: int| 0 <= k < at ==> group_views(groups@)[k].file != file@,
        decreases groups.len() - at,
    {
        at += 1;
    }
    proof {
        let all = group_views(groups@);
        lemma_group_index(all, file@);
        let found = group_index(all, file@);
        if found < at {
            assert(all[found].file == file@);
        } else if at < found {
            assert(all[at as int].file != file@);
        }
    }
    at
}

fn group_lines(ls: &Vec<Vec<char>>) -> (groups: Vec<FileHits>)
    ensures
        group_views(groups@) == grouped(views(ls@)),
{
    let mut groups: Vec<FileHits> = Vec::new();
    let mut i: usize = 0;
    proof {
        assert(views(ls@).take(0) =~= Seq::empty());
        assert(group_views(groups@) =~= Seq::empty());
    }
    while i < ls.len()
        invariant
            i <= ls.len(),
            group_views(groups@) == grouped(views(ls@).take(i as int)),
        decreases ls.len() - i,
    {
        let ghost seen = views(ls@).take(i as int);
        let ghost next = views(ls@).take(i + 1);
        let ghost before = group_views(groups@);
        proof {
            assert(next.drop_last() =~= seen);
            assert(next.last() == ls@[i as int]@);
        }
        let line = &ls[i];
        assert(line@.skip(0) =~= line@);
        let colon = find_char(line, 0, ':');
        if colon < line.len() {
            let file = slice(line, 0, colon);
            let hit = slice(line, colon + 1, line.len());
            let at = find_group(&groups, &file);
            if at < groups.len() {
                let mut group = groups.remove(at);
                let ghost hits_before = views(group.hits@);
                proof {
                    lemma_group_index(before, file@);
                    assert(group@ == before[at as int]);
                }
                group.hits.push(hit);
                assert(views(group.hits@) =~= hits_before.push(hit@));
                groups.insert(at, group);
                assert(group_views(groups@) =~= before.update(
                    at as int,
                    Hits { file: file@, hits: before[at as int].hits.push(hit@) },
                ));
            } else {
                let mut hits: Vec<Vec<char>> = Vec::new();
                hits.push(hit);
                assert(views(hits@) =~= seq![hit@]);
                groups.push(FileHits { file, hits });
                assert(group_views(groups@) =~= before.push(
                    Hits { file: file@, hits: seq![hit@] },
                ));
            }
        }
        i += 1;
    }
    assert(views(ls@).take(ls.len() as int) =~= views(ls@));
    groups
}

fn push_group(out: &mut Vec<char>, g: &FileHits)
    ensures
        final(out)@ == old(out)@ + group_text(g@),
{
    push_str(out, "\n── ");
    push_chars(out, &g.file);
    push_str(out, " (");
    push_decimal(out, g.hits.len());
    push_str(out, " hits)\n");
    let shown = clip_first(&g.hits, MAX_HITS, MAX_HIT_LEN, "");
    assert(first_n(views(shown@), shown.len() as nat) =~= views(shown@));
    push_block(out, &shown, shown.len(), "  ");
    push_overflow(out, g.hits.len(), MAX_HITS, " more\n");
    assert(out@ =~= old(out)@ + group_text(g@));
}

/// Group search results by file and cap the matches shown for each file.
pub fn compress_grep(raw: &str) -> (out: String)
    ensures
        out@ == grep_summary(raw@),
{
    let chars = chars_of(raw);
    if blank(&chars) {
        return "[grep] no matches".to_owned();
    }
    let ls = split_lines(&chars);
    let groups = group_lines(&ls);
    let mut out: Vec<char> = Vec::new();
    push_str(&mut out, "[grep] ");
    push_decimal(&mut out, ls.len());
    push_str(&mut out, " matches in ");
    push_decimal(&mut out, groups.len());
    push_str(&mut out, " files\n");
    let ghost head = out@;
    let mut i: usize = 0;
    assert(head + groups_text(group_views(groups@).take(0)) =~= head);
    while i < groups.len()
        invariant
            i <= groups.len(),
            out@ == head + groups_text(group_views(groups@).take(i as int)),
        decreases groups.len() - i,
    {
        let ghost done = group_views(groups@).take(i as int);
        let ghost next = group_views(groups@).take(i + 1);
        assert(next.drop_last() =~= done);
        assert(next.last() == groups@[i as int]@);
        push_group(&mut out, &groups[i]);
        assert(out@ =~= head + (groups_text(done) + group_text(groups@[i as int]@)));
        i += 1;
    }
    assert(group_views(groups@).take(groups.len() as int) =~= group_views(groups@));
    assert(out@ =~= grep_summary(raw@));
    string_of(&out)
}

/// Pure compressor for grep and ripgrep output.
pub struct GrepCompressor;

impl Compressor for GrepCompressor {
    /// The grouped matches, whatever the hint.
    open spec fn summary(&self, raw: Seq<char>, sub: Option<Seq<char>>) -> Seq<char> {
        grep_summary(raw)
    }

    fn compress(&self, raw: &str, sub: Option<&str>) -> (out: String) {
        compress_grep(raw)
    }
}

/// The summary is never empty.
pub proof fn lemma_grep_summary_not_empty(raw: Seq<char>)
    ensures
        grep_summary(raw).len() > 0,
{
    reveal_strlit("[grep] no matches");
    reveal_strlit("[grep] ");
}

} // verus!
