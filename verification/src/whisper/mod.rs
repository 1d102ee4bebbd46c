//! Recognition results and decoding parameters.

pub mod engine;
pub mod params;

use vstd::prelude::*;

pub use params::WhisperParams;

verus! {

/// The output of one recognition run.
#[derive(Debug, Clone)]
pub struct TranscriptResult {
    pub text: String,
    pub language: String,
    pub segments: Vec<TranscriptSegment>,
}

/// One timed piece of a transcript.
#[derive(Debug, Clone)]
pub struct TranscriptSegment {
    pub text: String,
    pub start_ms: i64,
    pub end_ms: i64,
}

/// How the decoder searches for tokens.
#[derive(Debug, Clone, Copy, PartialEq, Eq, Structural)]
pub enum DecodingStrategy {
    Greedy,
    BeamSearch,
}

impl Default for DecodingStrategy {
    fn default() -> (r: Self)
        ensures
            r == DecodingStrategy::Greedy,
    {
        DecodingStrategy::Greedy
    }
}

} // verus!
