//! Verified core of the whisper-typeless speech-to-text assistant.

pub mod app;
pub mod audio;
pub mod context_templates;
pub mod file_transcription;
pub mod models;
pub mod output;
pub mod settings;
pub mod text;
pub mod transcription;
pub mod ui;
pub mod whisper;
