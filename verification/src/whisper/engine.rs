//! The recognition engine's decisions: decoder settings derived from the
//! parameters, and the assembly of a result from decoded segments.

use vstd::prelude::*;
use vstd::string::StringExecFns;

use super::{DecodingStrategy, TranscriptResult, TranscriptSegment, WhisperParams};
use crate::context_templates::templates::opt_view;
use crate::text::{chars_of, push_str, str_eq, string_of, trim_chars, trim_spec};

verus! {

/// How the decoder samples tokens.
#[derive(Debug, Clone, Copy, PartialEq, Eq, Structural)]
pub enum SamplingChoice {
    Greedy { best_of: i32 },
    BeamSearch { beam_size: i32, patience_milli: i32 },
}

/// The sampling the parameters ask for.
pub open spec fn sampling_of(p: WhisperParams) -> SamplingChoice {
    match p.strategy {
        DecodingStrategy::Greedy => SamplingChoice::Greedy { best_of: p.best_of },
        DecodingStrategy::BeamSearch => SamplingChoice::BeamSearch {
            beam_size: p.beam_size,
            patience_milli: p.patience_milli,
        },
    }
}

/// Executable [`sampling_of`].
pub fn sampling_for(params: &WhisperParams) -> (r: SamplingChoice)
    ensures
        r == sampling_of(*params),
{
    match params.strategy {
        DecodingStrategy::Greedy => SamplingChoice::Greedy { best_of: params.best_of },
        DecodingStrategy::BeamSearch => SamplingChoice::BeamSearch {
            beam_size: params.beam_size,
            patience_milli: params.patience_milli,
        },
    }
}

/// Token time stamps and word splitting as passed to the decoder: both off
/// for Japanese, whose word segmentation data is not bundled; otherwise as
/// configured.
pub open spec fn word_timing_of(p: WhisperParams) -> (bool, bool) {
    if opt_view(p.language) == Some("ja"@) {
        (false, false)
    } else {
        (p.token_timestamps, p.split_on_word)
    }
}

/// Executable [`word_timing_of`].
pub fn word_timing_flags(params: &WhisperParams) -> (r: (bool, bool))
    ensures
        r == word_timing_of(*params),
{
    let is_ja = match &params.language {
        Some(l) => str_eq(l.as_str(), "ja"),
        None => false,
    };
    if is_ja {
        (false, false)
    } else {
        (params.token_timestamps, params.split_on_word)
    }
}

/// The inference device shown to the user.
pub open spec fn device_label_of(cuda: bool, metal: bool, use_gpu: bool) -> Seq<char> {
    if cuda && use_gpu {
        "GPU (CUDA)"@
    } else if metal && use_gpu {
        "GPU (Metal)"@
    } else if use_gpu {
        "CPU (需要 cuda 特性)"@
    } else {
        "CPU"@
    }
}

/// Executable [`device_label_of`], given which GPU back ends were built in.
pub fn device_label(cuda: bool, metal: bool, use_gpu: bool) -> (r: String)
    ensures
        r@ == device_label_of(cuda, metal, use_gpu),
{
    if cuda && use_gpu {
        String::from_str("GPU (CUDA)")
    } else if metal && use_gpu {
        String::from_str("GPU (Metal)")
    } else if use_gpu {
        String::from_str("CPU (需要 cuda 特性)")
    } else {
        String::from_str("CPU")
    }
}

/// A decoded segment with its times in centiseconds.
#[derive(Debug, Clone)]
pub struct RawSegment {
    pub text: String,
    pub t0: i64,
    pub t1: i64,
}

/// The segment texts concatenated.
pub open spec fn joined_text(raw: Seq<RawSegment>) -> Seq<char>
    decreases raw.len(),
{
    if raw.len() == 0 {
        seq![]
    } else {
        joined_text(raw.drop_last()) + raw.last().text@
    }
}

/// The detected language, `zh` when it is unknown.
pub open spec fn language_or_default(lang: Option<Seq<char>>) -> Seq<char> {
    match lang {
        Some(l) => l,
        None => "zh"@,
    }
}

/// Whether a time in centiseconds can be expressed in milliseconds.
pub open spec fn time_fits(t: i64) -> bool {
    i64::MIN <= t * 10 <= i64::MAX
}

/// The result of a recognition run: the trimmed concatenation of the
/// segment texts, the detected language (`zh` when unknown), and the
/// segments with their times in milliseconds.
pub fn assemble_transcript(raw: &[RawSegment], lang: Option<&str>) -> (r: TranscriptResult)
    requires
        forall|i: int| 0 <= i < raw@.len() ==> time_fits(#[trigger] raw@[i].t0) && time_fits(raw@[i].t1),
    ensures
        r.text@ == trim_spec(joined_text(raw@)),
        r.language@ == language_or_default(match lang {
            Some(l) => Some(l@),
            None => None,
        }),
        r.segments@.len() == raw@.len(),
        forall|i: int|
            0 <= i < raw@.len() ==> #[trigger] r.segments@[i].text@ == raw@[i].text@ && r.segments@[i].start_ms
                == raw@[i].t0 * 10 && r.segments@[i].end_ms == raw@[i].t1 * 10,
{
    let mut full: Vec<char> = Vec::new();
    let mut segments: Vec<TranscriptSegment> = Vec::new();
    let mut i: usize = 0;
    while i < raw.len()
        invariant
            i <= raw.len(),
            forall|k: int| 0 <= k < raw@.len() ==> time_fits(#[trigger] raw@[k].t0) && time_fits(raw@[k].t1),
            full@ == joined_text(raw@.take(i as int)),
            segments@.len() == i,
            forall|k: int|
                0 <= k < i ==> #[trigger] segments@[k].text@ == raw@[k].text@ && segments@[k].start_ms
                    == raw@[k].t0 * 10 && segments@[k].end_ms == raw@[k].t1 * 10,
        decreases raw.len() - i,
    {
        let seg = &raw[i];
        assert(time_fits(raw@[i as int].t0) && time_fits(raw@[i as int].t1));
        push_str(&mut full, seg.text.as_str());
        segments.push(TranscriptSegment { text: seg.text.clone(), start_ms: seg.t0 * 10, end_ms: seg.t1 * 10 });
        i = i + 1;
        assert(raw@.take(i as int).drop_last() =~= raw@.take(i - 1));
    }
    assert(raw@.take(raw.len() as int) =~= raw@);
    let t = trim_chars(full.as_slice());
    let language = match lang {
        Some(l) => l.to_owned(),
        None => String::from_str("zh"),
    };
    TranscriptResult { text: string_of(t.as_slice()), language, segments }
}

} // verus!
