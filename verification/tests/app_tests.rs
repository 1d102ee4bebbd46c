use whisper_typeless::app::{RecordingState, TranscriptEntry, TranscriptHistory, MAX_HISTORY};
use whisper_typeless::context_templates::TemplateId;

fn entry(n: u64) -> TranscriptEntry {
    TranscriptEntry { text: format!("t{n}"), timestamp_ms: n, template_id: TemplateId::Casual }
}

#[test]
fn history_keeps_order() {
    let mut h = TranscriptHistory::new();
    assert_eq!(h.len(), 0);
    h.push_transcript(entry(1));
    h.push_transcript(entry(2));
    assert_eq!(h.len(), 2);
    assert_eq!(h.get(0).text, "t1");
    assert_eq!(h.get(1).timestamp_ms, 2);
}

#[test]
fn history_drops_oldest_when_full() {
    let mut h = TranscriptHistory::new();
    for n in 0..(MAX_HISTORY as u64 + 5) {
        h.push_transcript(entry(n));
    }
    assert_eq!(h.len(), MAX_HISTORY);
    assert_eq!(h.get(0).timestamp_ms, 5);
    assert_eq!(h.get(MAX_HISTORY - 1).timestamp_ms, MAX_HISTORY as u64 + 4);
}

#[test]
fn recording_states_compare() {
    assert_ne!(RecordingState::Idle, RecordingState::Recording);
    assert_eq!(RecordingState::Processing, RecordingState::Processing);
}
