//! Settings sections and their defaults.

use vstd::prelude::*;
use vstd::string::StringExecFns;

use crate::context_templates::TemplateId;
use crate::output::OutputMode;
use crate::text::str_eq;
use crate::transcription::opencc::ConversionMode;
use crate::whisper::WhisperParams;

verus! {

/// Appearance and start-up behaviour.
pub struct GeneralConfig {
    pub theme: String,
    pub language_ui: String,
    pub start_minimized: bool,
    pub global_hotkey: String,
    pub auto_start: bool,
}

impl GeneralConfig {
    /// The shipped appearance and start-up settings.
    pub open spec fn has_defaults(self) -> bool {
        &&& self.theme@ == "auto"@
        &&& self.language_ui@ == "zh-TW"@
        &&& !self.start_minimized
        &&& self.global_hotkey@ == "Ctrl+Shift+W"@
        &&& !self.auto_start
    }
}

impl Default for GeneralConfig {
    fn default() -> (r: Self)
        ensures
            r.has_defaults(),
    {
        GeneralConfig {
            theme: String::from_str("auto"),
            language_ui: String::from_str("zh-TW"),
            start_minimized: false,
            global_hotkey: String::from_str("Ctrl+Shift+W"),
            auto_start: false,
        }
    }
}

/// Microphone and voice-activity settings. The threshold is an RMS level
/// in thousandths of full scale (`600` is 0.6).
pub struct AudioConfig {
    pub device_name: Option<String>,
    pub vad_silence_timeout_ms: u64,
    pub vad_threshold_milli: u32,
    pub max_segment_seconds: u32,
}

impl AudioConfig {
    /// The default device, 1.5 s of silence ends a segment, threshold 0.6, 30 s segments.
    pub open spec fn has_defaults(self) -> bool {
        &&& self.device_name is None
        &&& self.vad_silence_timeout_ms == 1500
        &&& self.vad_threshold_milli == 600
        &&& self.max_segment_seconds == 30
    }
}

impl Default for AudioConfig {
    fn default() -> (r: Self)
        ensures
            r.has_defaults(),
    {
        AudioConfig {
            device_name: None,
            vad_silence_timeout_ms: 1500,
            vad_threshold_milli: 600,
            max_segment_seconds: 30,
        }
    }
}

/// Chinese script conversion and clean-up.
pub struct ChineseConfig {
    pub conversion: ConversionMode,
    pub add_punctuation: bool,
    pub remove_fillers: bool,
}

impl ChineseConfig {
    /// Taiwan script, punctuation and filler removal on.
    pub open spec fn has_defaults(self) -> bool {
        &&& self.conversion == ConversionMode::ZhTW
        &&& self.add_punctuation
        &&& self.remove_fillers
    }
}

impl Default for ChineseConfig {
    fn default() -> (r: Self)
        ensures
            r.has_defaults(),
    {
        ChineseConfig { conversion: ConversionMode::ZhTW, add_punctuation: true, remove_fillers: true }
    }
}

/// Where and how finished text is delivered.
pub struct OutputConfig {
    pub mode: OutputMode,
    pub append_newline: bool,
    pub append_space: bool,
    pub clear_clipboard_after: bool,
    pub inject_delay_ms: u64,
    pub privacy_mode: bool,
}

impl OutputConfig {
    /// Clipboard plus keystrokes, a newline after each result, 50 ms delay.
    pub open spec fn has_defaults(self) -> bool {
        &&& self.mode is ClipboardAndInject
        &&& self.append_newline
        &&& !self.append_space
        &&& !self.clear_clipboard_after
        &&& self.inject_delay_ms == 50
        &&& !self.privacy_mode
    }
}

impl Default for OutputConfig {
    fn default() -> (r: Self)
        ensures
            r.has_defaults(),
    {
        OutputConfig {
            mode: OutputMode::ClipboardAndInject,
            append_newline: true,
            append_space: false,
            clear_clipboard_after: false,
            inject_delay_ms: 50,
            privacy_mode: false,
        }
    }
}

/// Template selection.
pub struct ContextConfig {
    pub auto_detect: bool,
    pub default_template: TemplateId,
}

impl ContextConfig {
    /// Automatic detection on, falling back to the casual template.
    pub open spec fn has_defaults(self) -> bool {
        &&& self.auto_detect
        &&& self.default_template == TemplateId::Casual
    }
}

impl Default for ContextConfig {
    fn default() -> (r: Self)
        ensures
            r.has_defaults(),
    {
        ContextConfig { auto_detect: true, default_template: TemplateId::Casual }
    }
}

/// Transcript history.
pub struct HistoryConfig {
    pub max_entries: usize,
    pub save_audio: bool,
    pub export_format: String,
}

impl HistoryConfig {
    /// A thousand entries, no audio kept, plain-text export.
    pub open spec fn has_defaults(self) -> bool {
        &&& self.max_entries == 1000
        &&& !self.save_audio
        &&& self.export_format@ == "txt"@
    }
}

impl Default for HistoryConfig {
    fn default() -> (r: Self)
        ensures
            r.has_defaults(),
    {
        HistoryConfig { max_entries: 1000, save_audio: false, export_format: String::from_str("txt") }
    }
}

/// Which feature modules are switched on.
#[derive(Debug, Clone, Copy, PartialEq, Eq, Structural)]
pub struct ModuleConfig {
    pub vad: bool,
    pub context_templates: bool,
    pub opencc: bool,
    pub auto_inject: bool,
    pub waveform: bool,
    pub history: bool,
    pub noise_suppress: bool,
    pub auto_punctuation: bool,
    pub speaker_detect: bool,
}

/// The switch of module `id` in `c`; unknown ids are off.
pub open spec fn module_flag(c: ModuleConfig, id: Seq<char>) -> bool {
    if id == "vad"@ {
        c.vad
    } else if id == "context_templates"@ {
        c.context_templates
    } else if id == "opencc"@ {
        c.opencc
    } else if id == "auto_inject"@ {
        c.auto_inject
    } else if id == "waveform"@ {
        c.waveform
    } else if id == "history"@ {
        c.history
    } else if id == "noise_suppress"@ {
        c.noise_suppress
    } else if id == "auto_punctuation"@ {
        c.auto_punctuation
    } else if id == "speaker_detect"@ {
        c.speaker_detect
    } else {
        false
    }
}

impl Default for ModuleConfig {
    fn default() -> (r: Self)
        ensures
            !r.vad && !r.context_templates && !r.opencc && !r.auto_inject && !r.waveform
                && !r.history && !r.noise_suppress && !r.auto_punctuation && !r.speaker_detect,
    {
        ModuleConfig {
            vad: false,
            context_templates: false,
            opencc: false,
            auto_inject: false,
            waveform: false,
            history: false,
            noise_suppress: false,
            auto_punctuation: false,
            speaker_detect: false,
        }
    }
}

impl ModuleConfig {
    /// Every module on except noise suppression and speaker detection.
    pub open spec fn is_all_enabled(self) -> bool {
        self.vad && self.context_templates && self.opencc && self.auto_inject && self.waveform
            && self.history && !self.noise_suppress && self.auto_punctuation && !self.speaker_detect
    }

    /// Every module on except noise suppression and speaker detection.
    pub fn all_enabled() -> (r: Self)
        ensures
            r.is_all_enabled(),
    {
        ModuleConfig {
            vad: true,
            context_templates: true,
            opencc: true,
            auto_inject: true,
            waveform: true,
            history: true,
            noise_suppress: false,
            auto_punctuation: true,
            speaker_detect: false,
        }
    }

    /// Whether module `id` is switched on; unknown ids are off.
    pub fn is_enabled(&self, id: &str) -> (r: bool)
        ensures
            r == module_flag(*self, id@),
    {
        if str_eq(id, "vad") {
            self.vad
        } else if str_eq(id, "context_templates") {
            self.context_templates
        } else if str_eq(id, "opencc") {
            self.opencc
        } else if str_eq(id, "auto_inject") {
            self.auto_inject
        } else if str_eq(id, "waveform") {
            self.waveform
        } else if str_eq(id, "history") {
            self.history
        } else if str_eq(id, "noise_suppress") {
            self.noise_suppress
        } else if str_eq(id, "auto_punctuation") {
            self.auto_punctuation
        } else if str_eq(id, "speaker_detect") {
            self.speaker_detect
        } else {
            false
        }
    }
}

/// The whole configuration, one section per concern.
pub struct AppConfig {
    pub general: GeneralConfig,
    pub audio: AudioConfig,
    pub whisper: WhisperParams,
    pub chinese: ChineseConfig,
    pub output: OutputConfig,
    pub context: ContextConfig,
    pub history: HistoryConfig,
    pub modules: ModuleConfig,
}

impl Default for AppConfig {
    /// Each section at its defaults; the modules all enabled but noise
    /// suppression and speaker detection.
    fn default() -> (r: Self)
        ensures
            r.general.has_defaults(),
            r.audio.has_defaults(),
            r.whisper.has_defaults(),
            r.chinese.has_defaults(),
            r.output.has_defaults(),
            r.context.has_defaults(),
            r.history.has_defaults(),
            r.modules.is_all_enabled(),
    {
        AppConfig {
            general: GeneralConfig::default(),
            audio: AudioConfig::default(),
            whisper: WhisperParams::default(),
            chinese: ChineseConfig::default(),
            output: OutputConfig::default(),
            context: ContextConfig::default(),
            history: HistoryConfig::default(),
            modules: ModuleConfig::all_enabled(),
        }
    }
}

} // verus!
