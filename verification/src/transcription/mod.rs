//! Post-processing and script conversion of recognised text.

pub mod opencc;
pub mod pipeline;
pub mod postprocess;

use vstd::prelude::*;

pub use pipeline::TranscriptionPipeline;

verus! {

/// Delivered text together with what it was made from.
#[derive(Debug, Clone)]
pub struct ProcessedText {
    pub text: String,
    pub raw_text: String,
    pub language: String,
}

} // verus!
