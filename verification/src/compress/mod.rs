//! The compressors: one for each family of tools, each a pure function from
//! the raw output of a finished command to a compact summary.
pub mod cargo;
pub mod docker;
pub mod generic;
pub mod git;
pub mod grep;
pub mod python;

use vstd::prelude::*;

verus! {

/// The model of an optional subcommand hint.
pub open spec fn hint_view(sub: Option<&str>) -> Option<Seq<char>> {
    match sub {
        Some(s) => Some(s@),
        None => None,
    }
}

/// The hint as a text: empty where there is none.
pub open spec fn hint_text(sub: Option<Seq<char>>) -> Seq<char> {
    match sub {
        Some(s) => s,
        None => Seq::empty(),
    }
}

/// Pure compression: raw output in, compact summary out, the same summary
/// for the same input.
pub trait Compressor {
    /// The summary that `compress` returns.
    spec fn summary(&self, raw: Seq<char>, sub: Option<Seq<char>>) -> Seq<char>;

    /// Compress raw output, optionally using the subcommand name for context.
    fn compress(&self, raw: &str, sub: Option<&str>) -> (out: String)
        ensures
            out@ == self.summary(raw@, hint_view(sub)),
    ;
}

} // verus!
