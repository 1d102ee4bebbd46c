use whisper_typeless::context_templates::{detector::ContextDetector, TemplateId, TemplateRegistry};
use whisper_typeless::transcription::opencc::{ConversionMode, OpenCCProcessor};
use whisper_typeless::transcription::postprocess::{PostProcessSettings, PostProcessor};

fn default_proc() -> PostProcessor {
    PostProcessor::new(PostProcessSettings::default())
}

#[test]
fn removes_fillers() {
    let proc = default_proc();
    let result = proc.process("嗯這個我覺得啊很不錯");
    assert!(!result.contains("嗯"));
    assert!(!result.contains("啊"));
}

#[test]
fn removes_repeated_phrases() {
    let proc = default_proc();
    let repeated = "謝謝謝謝謝謝謝謝謝謝";
    let result = proc.process(repeated);
    assert!(result.len() < repeated.len());
}

#[test]
fn postprocess_removes_fillers() {
    let settings = PostProcessSettings {
        remove_fillers: vec!["嗯".into(), "啊".into()],
        ..Default::default()
    };
    let proc = PostProcessor::new(settings);
    let result = proc.process("嗯這個問題啊很重要");
    assert!(!result.contains("嗯"));
    assert!(!result.contains("啊"));
    assert!(result.contains("這個問題"));
}

#[test]
fn postprocess_normalizes_punctuation() {
    let settings = PostProcessSettings {
        add_punctuation: true,
        ..Default::default()
    };
    let proc = PostProcessor::new(settings);
    let result = proc.process("好的,我明白了.");
    assert!(result.contains("，") || result.contains("。"));
}

#[test]
fn postprocess_exact_outputs() {
    let proc = default_proc();
    assert_eq!(proc.process("好的,我明白了."), "好的，我明白了。");
    assert_eq!(proc.process("  嗯那個 hello!  "), "hello！");
    // The longest repeated block is taken first: three copies of a
    // three-character block become one, and the last character stays.
    assert_eq!(proc.process("謝謝謝謝謝謝謝謝謝謝"), "謝謝謝謝");
    // Two copies are kept.
    assert_eq!(proc.process("好好好好"), "好好好好");
    assert_eq!(proc.process("abcabcabcd"), "abcd");
    assert_eq!(proc.process("xyabababz"), "xyabz");
}

#[test]
fn postprocess_without_punctuation_keeps_ascii() {
    let settings = PostProcessSettings {
        add_punctuation: false,
        remove_fillers: vec![],
        ..Default::default()
    };
    let proc = PostProcessor::new(settings);
    assert_eq!(proc.process(" a,b. "), "a,b.");
}

#[test]
fn postprocess_fillers_in_order_and_empty_filler() {
    let settings = PostProcessSettings {
        add_punctuation: false,
        remove_fillers: vec!["".into(), "ab".into()],
        ..Default::default()
    };
    let proc = PostProcessor::new(settings);
    // Removal of "ab" from "aabb" leaves a new "ab", which stays.
    assert_eq!(proc.process("aabb"), "ab");
}

#[test]
fn postprocess_short_text_untouched_by_repeat_removal() {
    let settings = PostProcessSettings {
        add_punctuation: false,
        remove_fillers: vec![],
        ..Default::default()
    };
    let proc = PostProcessor::new(settings);
    assert_eq!(proc.process("ababa"), "ababa");
}

#[test]
fn postprocess_update_settings_and_fillers() {
    let mut proc = default_proc();
    assert_eq!(proc.settings.fillers().len(), 4);
    proc.update_settings(PostProcessSettings {
        add_punctuation: true,
        formal_style: false,
        remove_fillers: vec!["X".into()],
        preserve_english_terms: false,
    });
    assert_eq!(proc.settings.fillers(), &["X".to_string()]);
    assert_eq!(proc.process("aXb?"), "ab？");
}

#[test]
fn opencc_raw_preserves_input() {
    let proc = OpenCCProcessor::new(ConversionMode::Raw).unwrap();
    assert_eq!(proc.convert("測試文字"), "測試文字");
}

#[test]
fn context_detector_picks_meeting() {
    let detector = ContextDetector::new(TemplateRegistry::new());
    let text = "今天的會議討論了預算和季度目標";
    assert_eq!(detector.detect(text), TemplateId::Meeting);
}

#[test]
fn postprocess_normalizes_before_collapsing_repeats() {
    let proc = default_proc();
    assert_eq!(proc.process("好,好，好,"), "好，");
}

#[test]
fn postprocess_ascii_filler_after_normalisation() {
    let settings = PostProcessSettings {
        add_punctuation: true,
        remove_fillers: vec!["，".into()],
        ..Default::default()
    };
    let proc = PostProcessor::new(settings);
    assert_eq!(proc.process("a,b"), "ab");
}
