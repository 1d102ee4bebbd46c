use std::path::PathBuf;

use whisper_typeless::context_templates::{CustomTemplateStore, TemplateId};
use whisper_typeless::output::OutputMode;
use whisper_typeless::settings::config::{
    AppConfig, AudioConfig, ChineseConfig, ContextConfig, GeneralConfig, HistoryConfig,
    ModuleConfig, OutputConfig,
};
use whisper_typeless::settings::persistence::ConfigPersistence;
use whisper_typeless::settings::ui_settings::UiSettings;
use whisper_typeless::settings::ModuleRegistry;
use whisper_typeless::transcription::opencc::ConversionMode;

#[test]
fn section_defaults() {
    let g = GeneralConfig::default();
    assert_eq!(g.theme, "auto");
    assert_eq!(g.language_ui, "zh-TW");
    assert_eq!(g.global_hotkey, "Ctrl+Shift+W");
    assert!(!g.start_minimized && !g.auto_start);
    let a = AudioConfig::default();
    assert!(a.device_name.is_none());
    assert_eq!(a.vad_silence_timeout_ms, 1500);
    assert_eq!(a.vad_threshold_milli, 600);
    assert_eq!(a.max_segment_seconds, 30);
    let c = ChineseConfig::default();
    assert_eq!(c.conversion, ConversionMode::ZhTW);
    assert!(c.add_punctuation && c.remove_fillers);
    let o = OutputConfig::default();
    assert!(matches!(o.mode, OutputMode::ClipboardAndInject));
    assert!(o.append_newline && !o.append_space && !o.clear_clipboard_after && !o.privacy_mode);
    assert_eq!(o.inject_delay_ms, 50);
    let x = ContextConfig::default();
    assert!(x.auto_detect);
    assert_eq!(x.default_template, TemplateId::Casual);
    let h = HistoryConfig::default();
    assert_eq!(h.max_entries, 1000);
    assert!(!h.save_audio);
    assert_eq!(h.export_format, "txt");
}

#[test]
fn app_config_default_enables_modules() {
    let cfg = AppConfig::default();
    assert_eq!(cfg.modules, ModuleConfig::all_enabled());
    assert_eq!(cfg.whisper.language.as_deref(), Some("zh"));
    assert_eq!(cfg.whisper.n_threads, 4);
    assert_eq!(cfg.audio.vad_silence_timeout_ms, 1500);
}

#[test]
fn module_config_lookup() {
    let all = ModuleConfig::all_enabled();
    assert!(all.is_enabled("vad"));
    assert!(all.is_enabled("auto_punctuation"));
    assert!(!all.is_enabled("noise_suppress"));
    assert!(!all.is_enabled("speaker_detect"));
    assert!(!all.is_enabled("unknown"));
    let none = ModuleConfig::default();
    assert!(!none.is_enabled("vad"));
}

#[test]
fn module_registry_reads_and_sets() {
    let mut reg = ModuleRegistry::with_all_modules(&AppConfig::default());
    let ids: Vec<&str> = reg.all().iter().map(|m| m.id).collect();
    assert_eq!(
        ids,
        vec![
            "vad",
            "context_templates",
            "opencc",
            "auto_inject",
            "waveform",
            "history",
            "noise_suppress",
            "auto_punctuation",
            "speaker_detect"
        ]
    );
    assert!(reg.is_enabled("opencc"));
    reg.set_enabled("opencc", false);
    assert!(!reg.is_enabled("opencc"));
    reg.set_enabled("speaker_detect", true);
    assert!(reg.is_enabled("speaker_detect"));
    reg.set_enabled("missing", true);
    assert!(!reg.is_enabled("missing"));
    assert_eq!(reg.all().len(), 9);
}

#[test]
fn persistence_paths_and_fallback() {
    let p = ConfigPersistence::new(PathBuf::from("/tmp/wt/config.toml"));
    assert_eq!(p.path(), &PathBuf::from("/tmp/wt/config.toml"));
    let d = ConfigPersistence::config_or_default(None);
    assert_eq!(d.general.theme, "auto");
    let mut custom = AppConfig::default();
    custom.general.theme = "dark".into();
    let kept = ConfigPersistence::config_or_default(Some(custom));
    assert_eq!(kept.general.theme, "dark");
    let store = CustomTemplateStore::new(PathBuf::from("/data/app"));
    assert_eq!(store.path(), PathBuf::from("/data/app/templates.json"));
}

#[test]
fn module_names_and_descriptions() {
    let reg = ModuleRegistry::with_all_modules(&AppConfig::default());
    let all = reg.all();
    assert_eq!(all[0].display_name, "靜音偵測");
    assert_eq!(all[0].description, "自動偵測說話開始/結束");
    assert_eq!(all[2].display_name, "繁簡轉換");
    assert_eq!(all[8].display_name, "說話者偵測");
    assert_eq!(all[8].description, "多人場景說話者分離");
}

#[test]
fn ui_settings_defaults() {
    let s = UiSettings::default();
    assert_eq!(s.vad_threshold_milli, 600);
    assert_eq!(s.silence_timeout_ms, 1500);
    assert_eq!(s.n_threads, 4);
    assert!(s.use_gpu);
    assert_eq!(s.temperature_milli, 0);
    assert_eq!(s.conversion_mode, "zh-TW");
    assert_eq!(s.hotkey, "Ctrl+Shift+W");
    assert_eq!(s.ptt_hotkey, "Ctrl+Alt+L");
    assert!(s.ptt_mode && s.mod_vad && s.mod_history && s.append_newline);
    assert!(s.clipboard_enabled && s.inject_enabled);
    assert_eq!(s.selected_model_id, "medium");
}

#[test]
fn custom_store_joins_its_own_file_name() {
    let store = CustomTemplateStore::new(PathBuf::from("dir"));
    assert_eq!(store.path(), PathBuf::from("dir").join("templates.json"));
    assert_ne!(store.path(), PathBuf::from("dir").join("other.json"));
}
