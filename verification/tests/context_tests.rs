use whisper_typeless::context_templates::templates::PostProcessSettings;
use whisper_typeless::context_templates::{
    detector::ContextDetector, ContextTemplate, TemplateId, TemplateRegistry,
};
use whisper_typeless::whisper::WhisperParams;

#[test]
fn detects_meeting() {
    let detector = ContextDetector::new(TemplateRegistry::new());
    let text = "今天的會議主要討論預算和季度目標";
    assert_eq!(detector.detect(text), TemplateId::Meeting);
}

#[test]
fn defaults_to_casual() {
    let detector = ContextDetector::new(TemplateRegistry::new());
    let text = "今天天氣不錯";
    assert_eq!(detector.detect(text), TemplateId::Casual);
}

#[test]
fn detector_lowercases_before_matching() {
    let detector = ContextDetector::new(TemplateRegistry::new());
    // "Bug" only matches the technical keyword "bug" once lower-cased.
    assert_eq!(detector.detect("這個 Bug 很煩"), TemplateId::Technical);
    assert_eq!(detector.detect_lowercased("這個 Bug 很煩"), TemplateId::Casual);
}

#[test]
fn detector_tie_keeps_first_template() {
    let detector = ContextDetector::new(TemplateRegistry::new());
    // One meeting keyword and one legal keyword: the meeting template comes first.
    assert_eq!(detector.detect("會議 合約"), TemplateId::Meeting);
    assert_eq!(detector.detect("合約 條款 會議"), TemplateId::Legal);
}

#[test]
fn detector_medical_text() {
    let detector = ContextDetector::new(TemplateRegistry::new());
    assert_eq!(detector.detect("病患有症狀，需要診斷"), TemplateId::Medical);
}

#[test]
fn template_names_and_icons() {
    assert_eq!(TemplateId::Meeting.display_name(), "會議記錄");
    assert_eq!(TemplateId::Casual.display_name(), "口語對話");
    assert_eq!(TemplateId::Technical.display_name(), "技術討論");
    assert_eq!(TemplateId::Medical.display_name(), "醫療紀錄");
    assert_eq!(TemplateId::Legal.display_name(), "法律文書");
    assert_eq!(TemplateId::Custom("我的".into()).display_name(), "我的");
    assert_eq!(TemplateId::Meeting.icon(), "🏢");
    assert_eq!(TemplateId::Legal.icon(), "\u{2696}\u{fe0f}");
    assert_eq!(TemplateId::Custom("x".into()).icon(), "📝");
    assert_eq!(TemplateId::Custom("a".into()), TemplateId::Custom("a".into()));
    assert_ne!(TemplateId::Custom("a".into()), TemplateId::Custom("b".into()));
}

#[test]
fn registry_lists_builtins_in_order() {
    let reg = TemplateRegistry::new();
    let ids: Vec<TemplateId> = reg.all().iter().map(|t| t.id.clone()).collect();
    assert_eq!(
        ids,
        vec![
            TemplateId::Meeting,
            TemplateId::Casual,
            TemplateId::Technical,
            TemplateId::Medical,
            TemplateId::Legal
        ]
    );
    assert_eq!(reg.get_casual().id, TemplateId::Casual);
    assert_eq!(reg.get(&TemplateId::Legal).unwrap().id, TemplateId::Legal);
    assert!(reg.get(&TemplateId::Custom("nope".into())).is_none());
    // A custom id with a built-in display name finds the built-in template.
    assert_eq!(reg.get(&TemplateId::Custom("會議記錄".into())).unwrap().id, TemplateId::Meeting);
}

#[test]
fn apply_template_overrides_prompt_language_temperature() {
    let reg = TemplateRegistry::new();
    let meeting = reg.get(&TemplateId::Meeting).unwrap();
    let mut params = WhisperParams::default();
    params.temperature_milli = 400;
    params.language = Some("en".into());
    meeting.apply_to_params(&mut params);
    assert_eq!(params.initial_prompt.as_deref(), Some(meeting.initial_prompt.as_str()));
    assert_eq!(params.language.as_deref(), Some("zh"));
    assert_eq!(params.temperature_milli, 0);
    assert_eq!(params.beam_size, 5);
}

#[test]
fn apply_template_without_overrides_keeps_params() {
    let t = ContextTemplate {
        id: TemplateId::Custom("c".into()),
        initial_prompt: String::new(),
        language_override: None,
        temperature_override_milli: None,
        postprocess: PostProcessSettings::default(),
        keywords: vec![],
    };
    let mut params = WhisperParams::default();
    params.initial_prompt = Some("keep".into());
    t.apply_to_params(&mut params);
    assert_eq!(params.initial_prompt.as_deref(), Some("keep"));
    assert_eq!(params.language.as_deref(), Some("zh"));
    assert_eq!(params.temperature_milli, 0);
}

#[test]
fn postprocess_settings_default_fillers() {
    let s = PostProcessSettings::default();
    assert!(s.add_punctuation);
    assert!(!s.formal_style);
    assert!(!s.preserve_english_terms);
    assert_eq!(s.remove_fillers, vec!["嗯", "啊", "那個", "就是說"]);
    let c = s.clone();
    assert_eq!(c.remove_fillers, s.remove_fillers);
}

#[test]
fn template_clone_keeps_contents() {
    let reg = TemplateRegistry::new();
    let t = reg.get(&TemplateId::Technical).unwrap().clone();
    assert_eq!(t.id, TemplateId::Technical);
    assert_eq!(t.keywords, reg.get(&TemplateId::Technical).unwrap().keywords);
    assert_eq!(t.temperature_override_milli, reg.get(&TemplateId::Technical).unwrap().temperature_override_milli);
}

#[test]
fn meeting_template_fillers() {
    let reg = TemplateRegistry::new();
    let m = reg.get(&TemplateId::Meeting).unwrap();
    assert_eq!(m.postprocess.remove_fillers, vec!["嗯", "啊", "那個", "就是說"]);
    assert!(m.postprocess.formal_style);
    assert_eq!(m.temperature_override_milli, Some(0));
}
