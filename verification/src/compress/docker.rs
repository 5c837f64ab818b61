//! Summaries of container-engine output.
use crate::compress::{hint_text, hint_view, Compressor};
use crate::listing::{block, first_n, overflow, push_block, push_overflow};
use crate::text::buffer::{push_chars, push_str};
use crate::text::convert::{chars_of, string_of, views};
use crate::text::lines::{is_bare, join, lemma_lines_nonempty, lines, split_lines};
use crate::text::matching::is_literal;
use crate::text::number::{decimal, push_decimal};
use crate::truncate::{
    collapsed, dedup_lines, deduped, lemma_truncated_empty, truncate, truncated, MAX_LINES,
    MAX_LINE_LEN,
};
use vstd::prelude::*;

verus! {

/// The most rows shown of a table.
pub const MAX_ROWS: usize = 30;

/// The summary of a table: the number of its rows, its header, the first
/// thirty rows, and a note on the rest; `nothing` where the output has no
/// line at all.
pub open spec fn table_summary(raw: Seq<char>, label: Seq<char>, nothing: Seq<char>) -> Seq<
    char,
> {
    let ls = lines(raw);
    if ls.len() == 0 {
        nothing
    } else {
        let rows = ls.skip(1);
        "["@ + label + ": "@ + decimal(rows.len()) + "]\n"@ + ls[0] + "\n"@ + block(
            first_n(rows, MAX_ROWS as nat),
            ""@,
        ) + overflow(rows.len(), MAX_ROWS as nat, " more\n"@)
    }
}

/// The summary of a list of containers.
pub open spec fn ps_summary(raw: Seq<char>) -> Seq<char> {
    table_summary(raw, "containers"@, "[docker ps] no containers"@)
}

/// The summary of a list of images.
pub open spec fn images_summary(raw: Seq<char>) -> Seq<char> {
    table_summary(raw, "images"@, "[docker images] none"@)
}

fn compress_table(raw: &str, label: &str, nothing: &str) -> (out: String)
    ensures
        out@ == table_summary(raw@, label@, nothing@),
{
    let chars = chars_of(raw);
    let ls = split_lines(&chars);
    if ls.len() == 0 {
        return nothing.to_owned();
    }
    let mut rows: Vec<Vec<char>> = Vec::new();
    let mut i: usize = 1;
    while i < ls.len()
        invariant
            1 <= i <= ls.len(),
            rows.len() == i - 1,
            forall|k: int| 0 <= k < rows.len() ==> rows@[k]@ == ls@[k + 1]@,
        decreases ls.len() - i,
    {
        rows.push(ls[i].clone());
        i += 1;
    }
    assert(views(rows@) =~= views(ls@).skip(1));
    let mut out: Vec<char> = Vec::new();
    push_str(&mut out, "[");
    push_str(&mut out, label);
    push_str(&mut out, ": ");
    push_decimal(&mut out, rows.len());
    push_str(&mut out, "]\n");
    push_chars(&mut out, &ls[0]);
    push_str(&mut out, "\n");
    push_block(&mut out, &rows, MAX_ROWS, "");
    push_overflow(&mut out, rows.len(), MAX_ROWS, " more\n");
    assert(out@ =~= table_summary(raw@, label@, nothing@));
    string_of(&out)
}

/// Compress `docker ps`: keep the header and the first rows.
pub fn compress_ps(raw: &str) -> (out: String)
    ensures
        out@ == ps_summary(raw@),
{
    compress_table(raw, "containers", "[docker ps] no containers")
}

/// Compress `docker images`: keep the header and the first rows.
pub fn compress_images(raw: &str) -> (out: String)
    ensures
        out@ == images_summary(raw@),
{
    compress_table(raw, "images", "[docker images] none")
}

/// The summary of the output of the subcommand `sub`.
pub open spec fn docker_summary(raw: Seq<char>, sub: Seq<char>) -> Seq<char> {
    if sub == "ps"@ {
        ps_summary(raw)
    } else if sub == "images"@ {
        images_summary(raw)
    } else if sub == "logs"@ {
        deduped(raw)
    } else {
        truncated(raw)
    }
}

/// Pure compressor for docker and kubectl output.
pub struct DockerCompressor;

impl Compressor for DockerCompressor {
    /// The summary for the hinted subcommand; the truncation of the raw
    /// output where the hint is missing or not known.
    open spec fn summary(&self, raw: Seq<char>, sub: Option<Seq<char>>) -> Seq<char> {
        docker_summary(raw, hint_text(sub))
    }

    fn compress(&self, raw: &str, sub: Option<&str>) -> (out: String) {
        let name = match sub {
            Some(s) => s,
            None => "",
        };
        proof {
            reveal_strlit("");
            assert(name@ =~= hint_text(hint_view(sub)));
        }
        let key = chars_of(name);
        if is_literal(&key, "ps") {
            compress_ps(raw)
        } else if is_literal(&key, "images") {
            compress_images(raw)
        } else if is_literal(&key, "logs") {
            dedup_lines(raw)
        } else {
            truncate(raw)
        }
    }
}

/// Fallback: for every subcommand but `ps`, `images` and `logs`, known or
/// not, the summary is the truncation of the output.
pub proof fn lemma_docker_fallback(raw: Seq<char>, sub: Seq<char>)
    requires
        sub != "ps"@,
        sub != "images"@,
        sub != "logs"@,
    ensures
        docker_summary(raw, sub) == truncated(raw),
{
}

/// The summary is never empty, unless the output is empty or a line ending
/// alone, or, for `logs`, what is left of it when its runs are collapsed.
pub proof fn lemma_docker_summary_not_empty(raw: Seq<char>, sub: Seq<char>)
    requires
        !is_bare(raw),
        sub == "logs"@ ==> !is_bare(join(collapsed(lines(raw)), "\n"@)),
    ensures
        docker_summary(raw, sub).len() > 0,
{
    if truncated(raw).len() == 0 {
        lemma_truncated_empty(raw, MAX_LINES as nat, MAX_LINE_LEN as nat);
    }
    if deduped(raw).len() == 0 {
        lemma_truncated_empty(
            join(collapsed(lines(raw)), "\n"@),
            MAX_LINES as nat,
            MAX_LINE_LEN as nat,
        );
    }
    lemma_lines_nonempty(raw);
    reveal_strlit("[");
}

} // verus!
