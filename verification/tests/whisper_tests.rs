use whisper_typeless::transcription::opencc::ConversionMode;
use whisper_typeless::transcription::pipeline::TranscriptionPipeline;
use whisper_typeless::context_templates::{TemplateId, TemplateRegistry};
use whisper_typeless::whisper::engine::{
    assemble_transcript, device_label, sampling_for, word_timing_flags, RawSegment, SamplingChoice,
};
use whisper_typeless::whisper::{DecodingStrategy, TranscriptResult, WhisperParams};

#[test]
fn params_defaults() {
    let p = WhisperParams::default();
    assert_eq!(p.language.as_deref(), Some("zh"));
    assert!(!p.translate);
    assert!(p.initial_prompt.is_none());
    assert_eq!(p.n_threads, 4);
    assert_eq!(p.strategy, DecodingStrategy::Greedy);
    assert_eq!(p.beam_size, 5);
    assert_eq!(p.best_of, 5);
    assert_eq!(p.temperature_milli, 0);
    assert_eq!(p.temperature_inc_milli, 200);
    assert_eq!(p.patience_milli, -1000);
    assert_eq!(p.entropy_thold_milli, 2400);
    assert_eq!(p.logprob_thold_milli, -1000);
    assert_eq!(p.no_speech_thold_milli, 600);
    assert!(p.suppress_blank);
    assert!(p.use_gpu);
}

#[test]
fn sampling_choice_follows_strategy() {
    let mut p = WhisperParams::default();
    assert_eq!(sampling_for(&p), SamplingChoice::Greedy { best_of: 5 });
    p.strategy = DecodingStrategy::BeamSearch;
    p.beam_size = 3;
    assert_eq!(sampling_for(&p), SamplingChoice::BeamSearch { beam_size: 3, patience_milli: -1000 });
}

#[test]
fn japanese_disables_word_timing() {
    let mut p = WhisperParams::default();
    p.token_timestamps = true;
    p.split_on_word = true;
    assert_eq!(word_timing_flags(&p), (true, true));
    p.language = Some("ja".into());
    assert_eq!(word_timing_flags(&p), (false, false));
}

#[test]
fn device_labels() {
    assert_eq!(device_label(true, false, true), "GPU (CUDA)");
    assert_eq!(device_label(false, true, true), "GPU (Metal)");
    assert_eq!(device_label(false, false, true), "CPU (需要 cuda 特性)");
    assert_eq!(device_label(true, true, false), "CPU");
}

#[test]
fn transcript_assembly() {
    let raw = vec![
        RawSegment { text: " 你好".into(), t0: 0, t1: 150 },
        RawSegment { text: "世界 ".into(), t0: 150, t1: 320 },
    ];
    let r = assemble_transcript(&raw, None);
    assert_eq!(r.text, "你好世界");
    assert_eq!(r.language, "zh");
    assert_eq!(r.segments.len(), 2);
    assert_eq!(r.segments[1].text, "世界 ");
    assert_eq!(r.segments[1].start_ms, 1500);
    assert_eq!(r.segments[1].end_ms, 3200);
    let e = assemble_transcript(&[], Some("en"));
    assert_eq!(e.text, "");
    assert_eq!(e.language, "en");
}

#[test]
fn pipeline_cleans_by_template() {
    let pipeline = TranscriptionPipeline::new(ConversionMode::Raw, TemplateRegistry::new()).unwrap();
    let result = TranscriptResult {
        text: "嗯我們開始,就是說好.".into(),
        language: "zh".into(),
        segments: vec![],
    };
    let casual = pipeline.process(result.clone(), &TemplateId::Casual);
    assert_eq!(casual.text, "我們開始，好。");
    assert_eq!(casual.raw_text, "嗯我們開始,就是說好.");
    assert_eq!(casual.language, "zh");
    // The meeting template removes "就是說" too.
    let meeting = pipeline.process(result.clone(), &TemplateId::Meeting);
    assert_eq!(meeting.text, "我們開始，好。");
    // An unknown template uses the default clean-up.
    let unknown = pipeline.process(result, &TemplateId::Custom("自訂".into()));
    assert_eq!(unknown.text, "我們開始，好。");
}

#[test]
fn pipeline_converts_script() {
    let mut pipeline = TranscriptionPipeline::new(ConversionMode::ZhTW, TemplateRegistry::new()).unwrap();
    let result = TranscriptResult { text: "软件".into(), language: "zh".into(), segments: vec![] };
    assert_eq!(pipeline.process(result.clone(), &TemplateId::Technical).text, "軟體");
    pipeline.set_conversion_mode(ConversionMode::Raw);
    assert_eq!(pipeline.process(result, &TemplateId::Technical).text, "软件");
}

#[test]
fn pipeline_converts_before_cleaning() {
    // The simplified filler "那个" becomes "那個" first and is then removed.
    let pipeline = TranscriptionPipeline::new(ConversionMode::ZhTW, TemplateRegistry::new()).unwrap();
    let result = TranscriptResult { text: "那个软件".into(), language: "zh".into(), segments: vec![] };
    assert_eq!(pipeline.process(result, &TemplateId::Casual).text, "軟體");
}

#[test]
fn params_no_speech_threshold() {
    assert_eq!(WhisperParams::default().no_speech_thold_milli, 600);
}
