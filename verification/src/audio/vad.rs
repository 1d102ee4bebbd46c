//! Voice activity segmentation: the decisions that cut a sample stream
//! into speech segments, given for each chunk whether it is loud enough.

use vstd::prelude::*;

use super::AudioSegment;

verus! {

/// Samples per second of the stream (16 kHz).
pub const SAMPLE_RATE: u64 = 16000;

/// Longest segment, in samples: 30 seconds.
pub const MAX_SEGMENT_SAMPLES: usize = 480000;

/// What the segmenter reports for one chunk.
#[derive(Debug, Clone)]
pub enum VadEvent<S, L> {
    /// Speech began with this chunk.
    SpeechStart,
    /// A loud chunk, with its level.
    SpeechContinue { level: L },
    /// A finished segment of speech.
    Segment(AudioSegment<S>),
    /// Speech ended after the silence timeout.
    Silence,
}

/// An event as plain values.
pub enum VadSignal<S, L> {
    SpeechStart,
    SpeechContinue(L),
    Segment(Seq<S>, nat),
    Silence,
}

/// The plain values of `e`.
pub open spec fn signal_of<S, L>(e: VadEvent<S, L>) -> VadSignal<S, L> {
    match e {
        VadEvent::SpeechStart => VadSignal::SpeechStart,
        VadEvent::SpeechContinue { level } => VadSignal::SpeechContinue(level),
        VadEvent::Segment(seg) => VadSignal::Segment(seg.samples@, seg.duration_ms as nat),
        VadEvent::Silence => VadSignal::Silence,
    }
}

/// The plain values of a list of events.
pub open spec fn signals_of<S, L>(es: Seq<VadEvent<S, L>>) -> Seq<VadSignal<S, L>> {
    es.map_values(|e: VadEvent<S, L>| signal_of(e))
}

/// Duration in milliseconds of `n` samples at 16 kHz, rounded down.
pub open spec fn duration_of(n: nat) -> nat {
    (n * 1000) / 16000
}

/// The segmenter's state as plain values.
pub struct VadState<S> {
    pub speaking: bool,
    pub last_speech_ms: Option<u64>,
    pub buffer: Seq<S>,
    pub silence_timeout_ms: u64,
}

/// Whether more than the timeout has passed since the last loud chunk.
pub open spec fn timed_out<S>(st: VadState<S>, now_ms: u64) -> bool {
    match st.last_speech_ms {
        Some(t) => (if now_ms >= t {
            now_ms - t
        } else {
            0
        }) > st.silence_timeout_ms,
        None => false,
    }
}

/// One step of the segmenter on a chunk: the next state and the events.
///
/// A loud chunk marks speech (reporting its start when silent before),
/// joins the buffer, and cuts a segment once 30 s are buffered. A quiet
/// chunk during speech joins the buffer; once the timeout has passed since
/// the last loud chunk the buffer becomes a segment and silence is
/// reported. Quiet chunks outside speech, and empty chunks, do nothing.
pub open spec fn vad_step<S, L>(
    st: VadState<S>,
    samples: Seq<S>,
    loud: bool,
    level: L,
    now_ms: u64,
) -> (VadState<S>, Seq<VadSignal<S, L>>) {
    let buf = st.buffer + samples;
    if samples.len() == 0 {
        (st, seq![])
    } else if loud {
        let start: Seq<VadSignal<S, L>> = if st.speaking {
            seq![]
        } else {
            seq![VadSignal::SpeechStart]
        };
        let cont = start.push(VadSignal::SpeechContinue(level));
        if buf.len() >= MAX_SEGMENT_SAMPLES {
            (
                VadState { speaking: true, last_speech_ms: Some(now_ms), buffer: seq![], ..st },
                cont.push(VadSignal::Segment(buf, duration_of(buf.len()))),
            )
        } else {
            (VadState { speaking: true, last_speech_ms: Some(now_ms), buffer: buf, ..st }, cont)
        }
    } else if st.speaking {
        if timed_out(st, now_ms) {
            (
                VadState { speaking: false, buffer: seq![], ..st },
                seq![VadSignal::Segment(buf, duration_of(buf.len())), VadSignal::Silence],
            )
        } else {
            (VadState { buffer: buf, ..st }, seq![])
        }
    } else {
        (st, seq![])
    }
}

/// The samples of the segments among `sig`, concatenated.
pub open spec fn segment_samples<S, L>(sig: Seq<VadSignal<S, L>>) -> Seq<S>
    decreases sig.len(),
{
    if sig.len() == 0 {
        seq![]
    } else {
        segment_samples(sig.drop_last()) + match sig.last() {
            VadSignal::Segment(s, _) => s,
            _ => Seq::<S>::empty(),
        }
    }
}

/// Cuts a stream of chunks into speech segments.
pub struct SpeechSegmenter<S> {
    silence_timeout_ms: u64,
    buffer: Vec<S>,
    last_speech_ms: Option<u64>,
    speaking: bool,
}

fn append<S: Copy>(buf: &mut Vec<S>, samples: &[S])
    ensures
        final(buf)@ == old(buf)@ + samples@,
{
    let ghost start = buf@;
    let mut i: usize = 0;
    while i < samples.len()
        invariant
            i <= samples.len(),
            buf@ == start + samples@.take(i as int),
        decreases samples.len() - i,
    {
        buf.push(samples[i]);
        i = i + 1;
        assert(samples@.take(i as int) == samples@.take(i - 1).push(samples@[i - 1]));
    }
    assert(samples@.take(samples.len() as int) == samples@);
}

/// The duration in milliseconds of `n` samples at 16 kHz, rounded down.
pub fn duration_ms_of(n: usize) -> (d: u64)
    ensures
        d as nat == duration_of(n as nat),
{
    assert((n as nat * 1000) / 16000 == n as nat / 16) by (nonlinear_arith);
    (n / 16) as u64
}

impl<S: Copy> SpeechSegmenter<S> {
    /// The segmenter's state.
    pub closed spec fn view(&self) -> VadState<S> {
        VadState {
            speaking: self.speaking,
            last_speech_ms: self.last_speech_ms,
            buffer: self.buffer@,
            silence_timeout_ms: self.silence_timeout_ms,
        }
    }

    /// A silent segmenter with an empty buffer.
    pub fn new(silence_timeout_ms: u64) -> (r: Self)
        ensures
            r@ == (VadState::<S> {
                speaking: false,
                last_speech_ms: None,
                buffer: seq![],
                silence_timeout_ms,
            }),
    {
        SpeechSegmenter { silence_timeout_ms, buffer: Vec::new(), last_speech_ms: None, speaking: false }
    }

    /// Feeds one chunk, `loud` when its level is above the threshold, at
    /// time `now_ms` of a monotonic clock.
    pub fn process<L: Copy>(&mut self, samples: &[S], loud: bool, level: L, now_ms: u64) -> (r: Vec<
        VadEvent<S, L>,
    >)
        ensures
            (final(self)@, signals_of(r@)) == vad_step(old(self)@, samples@, loud, level, now_ms),
    {
        let ghost st = self@;
        let mut events: Vec<VadEvent<S, L>> = Vec::new();
        if samples.len() == 0 {
            assert(signals_of(events@) =~= Seq::<VadSignal<S, L>>::empty());
            return events;
        }
        if loud {
            if !self.speaking {
                self.speaking = true;
                events.push(VadEvent::SpeechStart);
            }
            self.last_speech_ms = Some(now_ms);
            append(&mut self.buffer, samples);
            events.push(VadEvent::SpeechContinue { level });
            if self.buffer.len() >= MAX_SEGMENT_SAMPLES {
                let seg = self.flush_segment();
                events.push(seg);
            }
        } else if self.speaking {
            append(&mut self.buffer, samples);
            let timed_out = match self.last_speech_ms {
                Some(t) => (if now_ms >= t {
                    now_ms - t
                } else {
                    0
                }) > self.silence_timeout_ms,
                None => false,
            };
            if timed_out {
                self.speaking = false;
                let seg = self.flush_segment();
                events.push(seg);
                events.push(VadEvent::Silence);
            }
        }
        proof {
            let expected = vad_step(st, samples@, loud, level, now_ms);
            assert(signals_of(events@) =~= expected.1);
            assert(self@ == expected.0);
        }
        events
    }

    fn flush_segment<L>(&mut self) -> (e: VadEvent<S, L>)
        ensures
            signal_of(e) == VadSignal::<S, L>::Segment(old(self)@.buffer, duration_of(old(self)@.buffer.len())),
            final(self)@ == (VadState { buffer: seq![], ..old(self)@ }),
    {
        let mut samples: Vec<S> = Vec::new();
        std::mem::swap(&mut samples, &mut self.buffer);
        let duration_ms = duration_ms_of(samples.len());
        VadEvent::Segment(AudioSegment { samples, duration_ms })
    }

    /// Hands out whatever is buffered (on stop) and returns to silence.
    pub fn flush(&mut self) -> (r: Option<AudioSegment<S>>)
        ensures
            old(self)@.buffer.len() == 0 ==> r is None && final(self)@ == old(self)@,
            old(self)@.buffer.len() > 0 ==> (r matches Some(seg) && seg.samples@ == old(self)@.buffer
                && seg.duration_ms as nat == duration_of(old(self)@.buffer.len())) && final(self)@ == (
            VadState::<S> {
                speaking: false,
                last_speech_ms: None,
                buffer: seq![],
                silence_timeout_ms: old(self)@.silence_timeout_ms,
            }),
    {
        if self.buffer.len() == 0 {
            return None;
        }
        let mut samples: Vec<S> = Vec::new();
        std::mem::swap(&mut samples, &mut self.buffer);
        self.speaking = false;
        self.last_speech_ms = None;
        let duration_ms = duration_ms_of(samples.len());
        Some(AudioSegment { samples, duration_ms })
    }

    /// Changes how long a silence ends a segment.
    pub fn set_silence_timeout(&mut self, ms: u64)
        ensures
            final(self)@ == (VadState { silence_timeout_ms: ms, ..old(self)@ }),
    {
        self.silence_timeout_ms = ms;
    }

    /// Whether speech is in progress.
    pub fn is_speaking(&self) -> (r: bool)
        ensures
            r == self@.speaking,
    {
        self.speaking
    }
}

/// No sample is lost or duplicated: the samples of the segments a step
/// emits, followed by what stays buffered, are the buffered samples before
/// the step followed by the chunk (an empty chunk, or a quiet one outside
/// speech, is dropped unbuffered).
pub proof fn law_vad_conserves_samples<S, L>(st: VadState<S>, samples: Seq<S>, loud: bool, level: L, now_ms: u64)
    requires
        loud || st.speaking,
    ensures
        ({
            let (next, sig) = vad_step(st, samples, loud, level, now_ms);
            segment_samples(sig) + next.buffer == st.buffer + samples
        }),
{
    reveal_with_fuel(segment_samples, 4);
    let (next, sig) = vad_step(st, samples, loud, level, now_ms);
    let buf = st.buffer + samples;
    if samples.len() == 0 {
        assert(samples =~= Seq::<S>::empty());
        assert(st.buffer + samples =~= st.buffer);
        assert(segment_samples(sig) =~= Seq::<S>::empty());
        assert(segment_samples(sig) + next.buffer =~= st.buffer);
    } else if loud {
        let start: Seq<VadSignal<S, L>> = if st.speaking {
            seq![]
        } else {
            seq![VadSignal::SpeechStart]
        };
        let cont = start.push(VadSignal::SpeechContinue(level));
        assert(segment_samples(start) =~= Seq::<S>::empty()) by {
            if !st.speaking {
                assert(start.drop_last() =~= Seq::<VadSignal<S, L>>::empty());
            }
        }
        assert(cont.drop_last() =~= start);
        assert(segment_samples(cont) =~= Seq::<S>::empty());
        if buf.len() >= MAX_SEGMENT_SAMPLES {
            assert(sig.drop_last() =~= cont);
            assert(segment_samples(sig) + next.buffer =~= buf);
        } else {
            assert(segment_samples(sig) + next.buffer =~= buf);
        }
    } else if timed_out(st, now_ms) {
        assert(sig.drop_last().drop_last() =~= Seq::<VadSignal<S, L>>::empty());
        assert(segment_samples(sig) + next.buffer =~= buf);
    } else {
        assert(segment_samples(sig) =~= Seq::<S>::empty());
        assert(segment_samples(sig) + next.buffer =~= buf);
    }
}

/// After a loud chunk the buffer always holds less than 30 seconds.
pub proof fn law_vad_buffer_bounded_after_speech<S, L>(st: VadState<S>, samples: Seq<S>, level: L, now_ms: u64)
    requires
        samples.len() > 0,
    ensures
        vad_step(st, samples, true, level, now_ms).0.buffer.len() < MAX_SEGMENT_SAMPLES,
{
}

/// Silence is reported only together with the segment it ends, and only
/// by a quiet chunk.
pub proof fn law_vad_silence_follows_segment<S, L>(st: VadState<S>, samples: Seq<S>, loud: bool, level: L, now_ms: u64, k: int)
    requires
        0 <= k < vad_step(st, samples, loud, level, now_ms).1.len(),
        vad_step(st, samples, loud, level, now_ms).1[k] is Silence,
    ensures
        !loud,
        k == 1,
        vad_step(st, samples, loud, level, now_ms).1[0] is Segment,
{
}

} // verus!
