use whisper_typeless::audio::resampler::{needs_resampling, target_rate, CHUNK_SIZE};
use whisper_typeless::audio::{ChunkQueue, SpeechSegmenter, VadEvent};

fn kinds(events: &[VadEvent<i16, u32>]) -> Vec<&'static str> {
    events
        .iter()
        .map(|e| match e {
            VadEvent::SpeechStart => "start",
            VadEvent::SpeechContinue { .. } => "continue",
            VadEvent::Segment(_) => "segment",
            VadEvent::Silence => "silence",
        })
        .collect()
}

#[test]
fn segmenter_quiet_produces_no_segment() {
    let mut vad: SpeechSegmenter<i16> = SpeechSegmenter::new(1500);
    let events = vad.process(&[1i16; 1600], false, 10u32, 0);
    assert!(events.is_empty());
    assert!(!vad.is_speaking());
    assert!(vad.flush().is_none());
}

#[test]
fn segmenter_loud_starts_speech() {
    let mut vad: SpeechSegmenter<i16> = SpeechSegmenter::new(1500);
    let events = vad.process(&[9000i16; 1600], true, 900u32, 0);
    assert_eq!(kinds(&events), vec!["start", "continue"]);
    match &events[1] {
        VadEvent::SpeechContinue { level } => assert_eq!(*level, 900),
        _ => unreachable!(),
    }
    assert!(vad.is_speaking());
    let again = vad.process(&[9000i16; 1600], true, 900u32, 100);
    assert_eq!(kinds(&again), vec!["continue"]);
}

#[test]
fn segmenter_accumulates_without_cutting() {
    let mut vad: SpeechSegmenter<i16> = SpeechSegmenter::new(10000);
    for t in 0..6u64 {
        let events = vad.process(&[9000i16; 1600], true, 1u32, t * 100);
        assert!(!kinds(&events).contains(&"segment"));
    }
    let seg = vad.flush().unwrap();
    assert_eq!(seg.samples.len(), 9600);
    assert_eq!(seg.duration_ms, 600);
}

#[test]
fn segmenter_silence_after_timeout_cuts_segment() {
    let mut vad: SpeechSegmenter<i16> = SpeechSegmenter::new(1500);
    vad.process(&[9000i16; 1600], true, 1u32, 1000);
    let quiet = vad.process(&[0i16; 1600], false, 0u32, 2000);
    assert!(quiet.is_empty());
    let end = vad.process(&[0i16; 1600], false, 0u32, 2501);
    assert_eq!(kinds(&end), vec!["segment", "silence"]);
    match &end[0] {
        VadEvent::Segment(seg) => {
            assert_eq!(seg.samples.len(), 4800);
            assert_eq!(seg.duration_ms, 300);
        }
        _ => unreachable!(),
    }
    assert!(!vad.is_speaking());
}

#[test]
fn segmenter_cuts_at_thirty_seconds() {
    let mut vad: SpeechSegmenter<i16> = SpeechSegmenter::new(1500);
    let chunk = vec![1i16; 16000];
    for t in 0..29u64 {
        let events = vad.process(&chunk, true, 1u32, t);
        assert!(!kinds(&events).contains(&"segment"));
    }
    let events = vad.process(&chunk, true, 1u32, 29);
    assert_eq!(kinds(&events), vec!["continue", "segment"]);
    match &events[1] {
        VadEvent::Segment(seg) => {
            assert_eq!(seg.samples.len(), 480000);
            assert_eq!(seg.duration_ms, 30000);
        }
        _ => unreachable!(),
    }
    assert!(vad.is_speaking());
    assert!(vad.flush().is_none());
}

#[test]
fn segmenter_empty_chunk_and_timeout_change() {
    let mut vad: SpeechSegmenter<i16> = SpeechSegmenter::new(1500);
    assert!(vad.process(&[], true, 1u32, 0).is_empty());
    assert!(!vad.is_speaking());
    vad.set_silence_timeout(10);
    vad.process(&[5i16; 10], true, 1u32, 0);
    let end = vad.process(&[0i16; 10], false, 0u32, 11);
    assert_eq!(kinds(&end), vec!["segment", "silence"]);
}

#[test]
fn chunk_queue_conserves_samples() {
    let mut q: ChunkQueue<i32> = ChunkQueue::new();
    let first: Vec<i32> = (0..1500).collect();
    let chunks = q.push_and_take_chunks(&first);
    assert_eq!(chunks.len(), 1);
    assert_eq!(chunks[0].len(), CHUNK_SIZE);
    assert_eq!(chunks[0][0], 0);
    assert_eq!(chunks[0][1023], 1023);
    let second: Vec<i32> = (1500..2100).collect();
    let more = q.push_and_take_chunks(&second);
    assert_eq!(more.len(), 1);
    assert_eq!(more[0][0], 1024);
    assert_eq!(more[0][1023], 2047);
    let none = q.push_and_take_chunks(&[]);
    assert!(none.is_empty());
}

#[test]
fn resampling_rates() {
    assert_eq!(target_rate(), 16000);
    assert!(needs_resampling(48000));
    assert!(!needs_resampling(16000));
}

/// Root mean square of a chunk, the loudness the detector compares with its threshold.
fn rms(samples: &[f32]) -> f32 {
    if samples.is_empty() {
        return 0.0;
    }
    (samples.iter().map(|s| s * s).sum::<f32>() / samples.len() as f32).sqrt()
}

/// One chunk through a segmenter with the detector's threshold rule.
fn detect(vad: &mut SpeechSegmenter<f32>, threshold: f32, samples: &[f32], now_ms: u64) -> Vec<VadEvent<f32, f32>> {
    let level = rms(samples);
    vad.process(samples, level > threshold, level, now_ms)
}

#[test]
fn silence_produces_no_segment() {
    let mut vad: SpeechSegmenter<f32> = SpeechSegmenter::new(1500);
    let silent = vec![0.01f32; 1600];
    let events = detect(&mut vad, 0.5, &silent, 0);
    assert!(events.is_empty() || events.iter().all(|e| !matches!(e, VadEvent::Segment(_))));
}

#[test]
fn loud_audio_starts_speech() {
    let mut vad: SpeechSegmenter<f32> = SpeechSegmenter::new(1500);
    let loud = vec![0.8f32; 1600];
    let events = detect(&mut vad, 0.1, &loud, 0);
    assert!(events.iter().any(|e| matches!(e, VadEvent::SpeechStart)));
}

#[test]
fn vad_silent_produces_no_segment() {
    let mut vad: SpeechSegmenter<f32> = SpeechSegmenter::new(1500);
    let silent = vec![0.01f32; 1600];
    let events = detect(&mut vad, 0.5, &silent, 0);
    let has_segment = events.iter().any(|e| matches!(e, VadEvent::Segment(_)));
    assert!(!has_segment);
}

#[test]
fn vad_loud_starts_speaking() {
    let mut vad: SpeechSegmenter<f32> = SpeechSegmenter::new(1500);
    let loud = vec![0.9f32; 1600];
    let events = detect(&mut vad, 0.1, &loud, 0);
    let started = events.iter().any(|e| matches!(e, VadEvent::SpeechStart));
    assert!(started);
}

#[test]
fn vad_accumulates_audio_during_speech() {
    let mut vad: SpeechSegmenter<f32> = SpeechSegmenter::new(10000);
    let loud = vec![0.9f32; 1600];
    for t in 0..5u64 {
        detect(&mut vad, 0.1, &loud, t * 100);
    }
    let events = detect(&mut vad, 0.1, &loud, 500);
    let has_segment = events.iter().any(|e| matches!(e, VadEvent::Segment(_)));
    assert!(!has_segment);
}
