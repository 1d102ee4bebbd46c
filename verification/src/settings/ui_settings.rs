//! The settings the window shows and edits, kept as `settings.json`.

use vstd::prelude::*;
use vstd::string::StringExecFns;

verus! {

/// Everything the settings panel shows. Fractions are held in thousandths
/// (`vad_threshold_milli == 600` is a threshold of 0.6).
pub struct UiSettings {
    pub vad_threshold_milli: u32,
    pub silence_timeout_ms: u32,
    pub n_threads: i32,
    pub use_gpu: bool,
    pub temperature_milli: i32,
    pub conversion_mode: String,
    pub hotkey: String,
    pub ptt_hotkey: String,
    pub ptt_mode: bool,
    pub mod_vad: bool,
    pub mod_context: bool,
    pub mod_opencc: bool,
    pub mod_inject: bool,
    pub mod_waveform: bool,
    pub mod_history: bool,
    pub append_newline: bool,
    pub clipboard_enabled: bool,
    pub inject_enabled: bool,
    pub selected_model_id: String,
}

impl UiSettings {
    /// The settings of a first start: threshold 0.6, 1.5 s silence timeout,
    /// four threads on the GPU at temperature 0, Taiwan script, the default
    /// hotkeys with push-to-talk on, every module and output on, and the
    /// `medium` model.
    pub open spec fn has_defaults(self) -> bool {
        &&& self.vad_threshold_milli == 600
        &&& self.silence_timeout_ms == 1500
        &&& self.n_threads == 4
        &&& self.use_gpu
        &&& self.temperature_milli == 0
        &&& self.conversion_mode@ == "zh-TW"@
        &&& self.hotkey@ == "Ctrl+Shift+W"@
        &&& self.ptt_hotkey@ == "Ctrl+Alt+L"@
        &&& self.ptt_mode
        &&& self.mod_vad
        &&& self.mod_context
        &&& self.mod_opencc
        &&& self.mod_inject
        &&& self.mod_waveform
        &&& self.mod_history
        &&& self.append_newline
        &&& self.clipboard_enabled
        &&& self.inject_enabled
        &&& self.selected_model_id@ == "medium"@
    }
}

impl Default for UiSettings {
    fn default() -> (r: Self)
        ensures
            r.has_defaults(),
    {
        UiSettings {
            vad_threshold_milli: 600,
            silence_timeout_ms: 1500,
            n_threads: 4,
            use_gpu: true,
            temperature_milli: 0,
            conversion_mode: String::from_str("zh-TW"),
            hotkey: String::from_str("Ctrl+Shift+W"),
            ptt_hotkey: String::from_str("Ctrl+Alt+L"),
            ptt_mode: true,
            mod_vad: true,
            mod_context: true,
            mod_opencc: true,
            mod_inject: true,
            mod_waveform: true,
            mod_history: true,
            append_newline: true,
            clipboard_enabled: true,
            inject_enabled: true,
            selected_model_id: String::from_str("medium"),
        }
    }
}

} // verus!
