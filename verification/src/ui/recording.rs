//! Recording control: what a press of the record key does, the recorder's
//! phases, the time stamps of transcripts and the WAV file header of a kept
//! recording.

use vstd::prelude::*;

use crate::app::RecordingState;
use crate::output::formatter::{clock_hms, hms, unix_time_secs};
use crate::text::{trim_spec, trim_str};
use crate::transcription::opencc::{chinese_text_of, convert_chinese_text};

verus! {

/// What pressing the record key does.
#[derive(Debug, Clone, Copy, PartialEq, Eq, Structural)]
pub enum ToggleAction {
    /// Stop capturing and transcribe what was recorded.
    StopRecording,
    /// Start capturing.
    StartRecording,
    /// The model file is missing: offer to download it instead.
    AskToDownloadModel,
}

/// A running recording stops; otherwise recording starts when the selected
/// model is on disk, and a download is offered when it is not.
pub open spec fn toggle_action_of(recording: bool, model_present: bool) -> ToggleAction {
    if recording {
        ToggleAction::StopRecording
    } else if model_present {
        ToggleAction::StartRecording
    } else {
        ToggleAction::AskToDownloadModel
    }
}

/// Executable [`toggle_action_of`].
pub fn toggle_action(recording: bool, model_present: bool) -> (r: ToggleAction)
    ensures
        r == toggle_action_of(recording, model_present),
{
    if recording {
        ToggleAction::StopRecording
    } else if model_present {
        ToggleAction::StartRecording
    } else {
        ToggleAction::AskToDownloadModel
    }
}

/// What happens to the recorder.
#[derive(Debug, Clone, Copy, PartialEq, Eq, Structural)]
pub enum RecorderEvent {
    /// The record key was pressed; whether the model file is present.
    TogglePressed { model_present: bool },
    /// The record key was pressed with the model present, but the audio
    /// device or its input stream could not be started.
    StartFailed,
    /// The transcription of the last recording finished.
    TranscriptionDone,
}

/// The recorder's next phase.
pub open spec fn next_state_of(state: RecordingState, ev: RecorderEvent) -> RecordingState {
    match ev {
        RecorderEvent::TogglePressed { model_present } => match toggle_action_of(
            state == RecordingState::Recording,
            model_present,
        ) {
            ToggleAction::StopRecording => RecordingState::Processing,
            ToggleAction::StartRecording => RecordingState::Recording,
            ToggleAction::AskToDownloadModel => state,
        },
        RecorderEvent::StartFailed => state,
        RecorderEvent::TranscriptionDone => if state == RecordingState::Processing {
            RecordingState::Idle
        } else {
            state
        },
    }
}

/// Executable [`next_state_of`].
pub fn next_recording_state(state: RecordingState, ev: RecorderEvent) -> (r: RecordingState)
    ensures
        r == next_state_of(state, ev),
{
    match ev {
        RecorderEvent::TogglePressed { model_present } => match toggle_action(
            state == RecordingState::Recording,
            model_present,
        ) {
            ToggleAction::StopRecording => RecordingState::Processing,
            ToggleAction::StartRecording => RecordingState::Recording,
            ToggleAction::AskToDownloadModel => state,
        },
        RecorderEvent::StartFailed => state,
        RecorderEvent::TranscriptionDone => if state == RecordingState::Processing {
            RecordingState::Idle
        } else {
            state
        },
    }
}

/// Recording starts only on a key press with the model present and a
/// device that starts (a failed start changes nothing), and a recording
/// ends only in processing.
pub proof fn law_recording_needs_model(state: RecordingState, ev: RecorderEvent)
    ensures
        state != RecordingState::Recording && next_state_of(state, ev) == RecordingState::Recording
            ==> ev == (RecorderEvent::TogglePressed { model_present: true }),
        state == RecordingState::Recording && next_state_of(state, ev) != RecordingState::Recording
            ==> next_state_of(state, ev) == RecordingState::Processing,
        next_state_of(state, RecorderEvent::StartFailed) == state,
{
}

/// The current time of day in Taiwan (UTC+8) as `HH:MM:SS`.
pub fn current_time_str() -> (r: String)
    ensures
        exists|t: u64| r@ == hms(t as nat, 8),
{
    clock_hms(unix_time_secs(), 8)
}

/// `v` as four little-endian bytes.
pub open spec fn le32(v: nat) -> Seq<u8> {
    seq![(v % 256) as u8, ((v / 256) % 256) as u8, ((v / 65536) % 256) as u8, ((v / 16777216) % 256) as u8]
}

/// `v` as two little-endian bytes.
pub open spec fn le16(v: nat) -> Seq<u8> {
    seq![(v % 256) as u8, ((v / 256) % 256) as u8]
}

/// The 44-byte header of a mono 16-bit PCM WAV file holding `n` samples at
/// `rate` samples per second.
pub open spec fn wav_header_of(n: nat, rate: nat) -> Seq<u8> {
    let data_len = n * 2;
    seq![82u8, 73, 70, 70] + le32(36 + data_len) + seq![87u8, 65, 86, 69] + seq![102u8, 109, 116, 32]
        + le32(16) + le16(1) + le16(1) + le32(rate) + le32(rate * 2) + le16(2) + le16(16) + seq![
        100u8,
        97,
        116,
        97,
    ] + le32(data_len)
}

fn push_le32(out: &mut Vec<u8>, v: u32)
    ensures
        final(out)@ == old(out)@ + le32(v as nat),
{
    out.push((v % 256) as u8);
    out.push(((v / 256) % 256) as u8);
    out.push(((v / 65536) % 256) as u8);
    out.push(((v / 16777216) % 256) as u8);
    assert(final(out)@ =~= old(out)@ + le32(v as nat));
}

fn push_le16(out: &mut Vec<u8>, v: u16)
    ensures
        final(out)@ == old(out)@ + le16(v as nat),
{
    out.push((v % 256) as u8);
    out.push(((v / 256) % 256) as u8);
    assert(final(out)@ =~= old(out)@ + le16(v as nat));
}

fn push_tag(out: &mut Vec<u8>, a: u8, b: u8, c: u8, d: u8)
    ensures
        final(out)@ == old(out)@ + seq![a, b, c, d],
{
    out.push(a);
    out.push(b);
    out.push(c);
    out.push(d);
    assert(final(out)@ =~= old(out)@ + seq![a, b, c, d]);
}

/// Executable [`wav_header_of`].
pub fn wav_header(sample_count: usize, sample_rate: u32) -> (r: Vec<u8>)
    requires
        sample_count * 2 + 36 <= u32::MAX,
        sample_rate * 2 <= u32::MAX,
    ensures
        r@ == wav_header_of(sample_count as nat, sample_rate as nat),
        r@.len() == 44,
{
    let data_len: u32 = (sample_count as u32) * 2;
    let mut out: Vec<u8> = Vec::new();
    push_tag(&mut out, 82, 73, 70, 70);
    push_le32(&mut out, 36 + data_len);
    push_tag(&mut out, 87, 65, 86, 69);
    push_tag(&mut out, 102, 109, 116, 32);
    push_le32(&mut out, 16);
    push_le16(&mut out, 1);
    push_le16(&mut out, 1);
    push_le32(&mut out, sample_rate);
    push_le32(&mut out, sample_rate * 2);
    push_le16(&mut out, 2);
    push_le16(&mut out, 16);
    push_tag(&mut out, 100, 97, 116, 97);
    push_le32(&mut out, data_len);
    assert(out@ =~= wav_header_of(sample_count as nat, sample_rate as nat));
    out
}

/// The text delivered for a finished recording whose transcript is `raw`:
/// the trimmed transcript after the script conversion step; `None` when
/// that leaves nothing, in which case nothing is delivered or recorded.
pub open spec fn delivered_of(raw: Seq<char>, opencc_enabled: bool, conversion_mode: Seq<char>) -> Option<Seq<char>> {
    let t = chinese_text_of(trim_spec(raw), opencc_enabled, conversion_mode);
    if t.len() == 0 {
        None
    } else {
        Some(t)
    }
}

/// Executable [`delivered_of`].
pub fn delivered_text(raw: &str, opencc_enabled: bool, conversion_mode: &str) -> (r: Option<String>)
    ensures
        match r {
            Some(s) => delivered_of(raw@, opencc_enabled, conversion_mode@) == Some(s@),
            None => delivered_of(raw@, opencc_enabled, conversion_mode@) is None,
        },
{
    let trimmed = trim_str(raw);
    let text = convert_chinese_text(trimmed.as_str(), opencc_enabled, conversion_mode);
    if text.as_str().is_empty() {
        None
    } else {
        Some(text)
    }
}

} // verus!
