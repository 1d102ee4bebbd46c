//! Application state that outlives a single recording: the recording phase
//! and the transcript history.

use vstd::prelude::*;

use std::collections::VecDeque;

use crate::context_templates::TemplateId;

verus! {

/// Most transcripts kept in the history.
pub const MAX_HISTORY: usize = 1000;

/// The phase of the recorder.
#[derive(Debug, Clone, Copy, PartialEq, Eq, Structural)]
pub enum RecordingState {
    Idle,
    Recording,
    Processing,
}

/// One delivered transcript.
#[derive(Debug, Clone)]
pub struct TranscriptEntry {
    pub text: String,
    pub timestamp_ms: u64,
    pub template_id: TemplateId,
}

/// The most recent transcripts, oldest first, at most [`MAX_HISTORY`].
pub struct TranscriptHistory {
    entries: VecDeque<TranscriptEntry>,
}

/// The history after adding `e` to `h`: when full, the oldest entry goes.
pub open spec fn history_after_push(h: Seq<TranscriptEntry>, e: TranscriptEntry) -> Seq<TranscriptEntry> {
    if h.len() >= MAX_HISTORY {
        h.drop_first().push(e)
    } else {
        h.push(e)
    }
}

impl TranscriptHistory {
    #[verifier::type_invariant]
    spec fn bounded(self) -> bool {
        self.entries@.len() <= MAX_HISTORY
    }

    /// The kept transcripts, oldest first.
    pub closed spec fn view(&self) -> Seq<TranscriptEntry> {
        self.entries@
    }

    /// An empty history.
    pub fn new() -> (r: Self)
        ensures
            r@ == Seq::<TranscriptEntry>::empty(),
    {
        TranscriptHistory { entries: VecDeque::with_capacity(MAX_HISTORY) }
    }

    /// Adds a transcript, dropping the oldest one when the history is full.
    pub fn push_transcript(&mut self, entry: TranscriptEntry)
        ensures
            final(self)@ == history_after_push(old(self)@, entry),
            final(self)@.len() <= MAX_HISTORY,
    {
        proof {
            use_type_invariant(&*self);
        }
        let mut entries = VecDeque::new();
        std::mem::swap(&mut entries, &mut self.entries);
        if entries.len() >= MAX_HISTORY {
            let _ = entries.pop_front();
        }
        entries.push_back(entry);
        self.entries = entries;
    }

    /// How many transcripts are kept.
    pub fn len(&self) -> (r: usize)
        ensures
            r == self@.len(),
    {
        self.entries.len()
    }

    /// The `i`-th kept transcript, oldest first.
    pub fn get(&self, i: usize) -> (r: &TranscriptEntry)
        requires
            i < self@.len(),
        ensures
            *r == self@[i as int],
    {
        &self.entries[i]
    }
}

/// However many transcripts are added, the history never holds more than
/// [`MAX_HISTORY`], and the newest one is always last.
pub proof fn law_history_bounded(h: Seq<TranscriptEntry>, e: TranscriptEntry)
    requires
        h.len() <= MAX_HISTORY,
    ensures
        history_after_push(h, e).len() <= MAX_HISTORY,
        history_after_push(h, e).last() == e,
        h.len() < MAX_HISTORY ==> history_after_push(h, e).drop_last() == h,
        h.len() == MAX_HISTORY ==> history_after_push(h, e).drop_last() == h.drop_first(),
{
    assert(h.push(e).drop_last() =~= h);
    assert(h.drop_first().push(e).drop_last() =~= h.drop_first());
}

} // verus!
