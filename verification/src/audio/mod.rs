//! Audio stream handling: chunking for resampling and speech segmentation.

pub mod resampler;
pub mod vad;

use vstd::prelude::*;

pub use resampler::ChunkQueue;
pub use vad::{SpeechSegmenter, VadEvent};

verus! {

/// A piece of recorded audio at 16 kHz.
#[derive(Debug, Clone)]
pub struct AudioSegment<S> {
    pub samples: Vec<S>,
    pub duration_ms: u64,
}

} // verus!
