//! The fallback for commands that have no summary of their own.
use crate::compress::Compressor;
use crate::truncate::{truncate, truncated};
use vstd::prelude::*;

verus! {

/// Fallback compressor: just truncate.
pub struct GenericCompressor;

impl Compressor for GenericCompressor {
    /// The truncation of the raw output, whatever the hint.
    open spec fn summary(&self, raw: Seq<char>, sub: Option<Seq<char>>) -> Seq<char> {
        truncated(raw)
    }

    fn compress(&self, raw: &str, sub: Option<&str>) -> (out: String) {
        truncate(raw)
    }
}

} // verus!
