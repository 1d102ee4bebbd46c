//! The full set of recognition parameters.

use vstd::prelude::*;
use vstd::string::StringExecFns;

use super::DecodingStrategy;

verus! {

/// Every recognition parameter. Fractional parameters are held in
/// thousandths (`temperature_milli == 200` is a temperature of 0.2).
pub struct WhisperParams {
    pub language: Option<String>,
    pub translate: bool,
    pub initial_prompt: Option<String>,
    pub n_threads: i32,
    pub strategy: DecodingStrategy,
    pub beam_size: i32,
    pub best_of: i32,
    pub temperature_milli: i32,
    pub temperature_inc_milli: i32,
    pub patience_milli: i32,
    pub max_tokens: i32,
    pub audio_ctx: i32,
    pub timestamps: bool,
    pub token_timestamps: bool,
    pub thold_pt_milli: i32,
    pub max_len: i32,
    pub split_on_word: bool,
    pub suppress_blank: bool,
    pub suppress_non_speech: bool,
    pub entropy_thold_milli: i32,
    pub logprob_thold_milli: i32,
    pub no_speech_thold_milli: i32,
    pub speed_up: bool,
    pub use_gpu: bool,
    pub gpu_device: i32,
}

impl WhisperParams {
    /// All parameters but the prompt, the language and the temperature agree.
    pub open spec fn same_except_prompt_language_temperature(self, o: WhisperParams) -> bool {
        &&& self.translate == o.translate
        &&& self.n_threads == o.n_threads
        &&& self.strategy == o.strategy
        &&& self.beam_size == o.beam_size
        &&& self.best_of == o.best_of
        &&& self.temperature_inc_milli == o.temperature_inc_milli
        &&& self.patience_milli == o.patience_milli
        &&& self.max_tokens == o.max_tokens
        &&& self.audio_ctx == o.audio_ctx
        &&& self.timestamps == o.timestamps
        &&& self.token_timestamps == o.token_timestamps
        &&& self.thold_pt_milli == o.thold_pt_milli
        &&& self.max_len == o.max_len
        &&& self.split_on_word == o.split_on_word
        &&& self.suppress_blank == o.suppress_blank
        &&& self.suppress_non_speech == o.suppress_non_speech
        &&& self.entropy_thold_milli == o.entropy_thold_milli
        &&& self.logprob_thold_milli == o.logprob_thold_milli
        &&& self.no_speech_thold_milli == o.no_speech_thold_milli
        &&& self.speed_up == o.speed_up
        &&& self.use_gpu == o.use_gpu
        &&& self.gpu_device == o.gpu_device
    }
}

impl WhisperParams {
    /// Chinese, greedy decoding on four threads, GPU on, the library's thresholds.
    pub open spec fn has_defaults(self) -> bool {
        &&& self.language matches Some(l) && l@ == "zh"@
        &&& !self.translate
        &&& self.initial_prompt is None
        &&& self.n_threads == 4
        &&& self.strategy == DecodingStrategy::Greedy
        &&& self.beam_size == 5
        &&& self.best_of == 5
        &&& self.temperature_milli == 0
        &&& self.temperature_inc_milli == 200
        &&& self.patience_milli == -1000
        &&& self.max_tokens == 0
        &&& self.audio_ctx == 0
        &&& !self.timestamps
        &&& !self.token_timestamps
        &&& self.thold_pt_milli == 10
        &&& self.max_len == 0
        &&& !self.split_on_word
        &&& self.suppress_blank
        &&& !self.suppress_non_speech
        &&& self.entropy_thold_milli == 2400
        &&& self.logprob_thold_milli == -1000
        &&& self.no_speech_thold_milli == 600
        &&& !self.speed_up
        &&& self.use_gpu
        &&& self.gpu_device == 0
    }
}

impl Default for WhisperParams {
    fn default() -> (r: Self)
        ensures
            r.has_defaults(),
    {
        WhisperParams {
            language: Some(String::from_str("zh")),
            translate: false,
            initial_prompt: None,
            n_threads: 4,
            strategy: DecodingStrategy::Greedy,
            beam_size: 5,
            best_of: 5,
            temperature_milli: 0,
            temperature_inc_milli: 200,
            patience_milli: -1000,
            max_tokens: 0,
            audio_ctx: 0,
            timestamps: false,
            token_timestamps: false,
            thold_pt_milli: 10,
            max_len: 0,
            split_on_word: false,
            suppress_blank: true,
            suppress_non_speech: false,
            entropy_thold_milli: 2400,
            logprob_thold_milli: -1000,
            no_speech_thold_milli: 600,
            speed_up: false,
            use_gpu: true,
            gpu_device: 0,
        }
    }
}

} // verus!
