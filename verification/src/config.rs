//! The preferences that the menus show and the control loop changes.
use vstd::prelude::*;

verus! {

/// Colour theme of the icon and the popup.
#[derive(Debug, Clone, Copy, PartialEq, Eq, Structural)]
pub enum Theme {
    Dark,
    Light,
    /// Follow the operating system.
    System,
}

/// How dictation delivers its text.
#[derive(Debug, Clone, Copy, PartialEq, Eq, Structural)]
pub enum SttMode {
    Batch,
    Streaming,
    Chunked,
}

/// Language of the menus.
#[derive(Debug, Clone, Copy, PartialEq, Eq, Structural)]
pub enum UiLanguage {
    Es,
    En,
    Bilingual,
}

/// Which system prompt primes the transcriber.
#[derive(Debug, Clone, Copy, PartialEq, Eq, Structural)]
pub enum PromptPreset {
    BilingualEsEn,
    SpanishOnly,
    EnglishOnly,
    Custom,
}

/// Decoding effort of the transcriber.
#[derive(Debug, Clone, Copy, PartialEq, Eq, Structural)]
pub enum EffortPreset {
    Balanced,
    Robust,
    HighQuality,
}

/// Which engine reads text aloud.
#[derive(Debug, Clone, Copy, PartialEq, Eq, Structural)]
pub enum TtsEngineKind {
    Piper,
    Kokoro,
}

/// How text is read aloud.
#[derive(Debug, PartialEq, Eq)]
pub struct TtsConfig {
    pub enabled: bool,
    pub engine: TtsEngineKind,
    pub voice: String,
    /// The speed in thousandths.
    pub speed_milli: u16,
}

/// The preferences of the user.
#[derive(Debug, PartialEq, Eq)]
pub struct Config {
    /// The key that starts a dictation.
    pub hotkey: String,
    /// The file name of the speech model.
    pub model: String,
    /// The language of the dictation.
    pub language_ui: String,
    pub use_gpu: bool,
    /// The threads of each worker; `None` for the automatic choice.
    pub n_threads: Option<u16>,
    pub theme: Theme,
    pub ui_language: UiLanguage,
    pub stt_mode: SttMode,
    pub prompt_preset: PromptPreset,
    /// The prompt of the user.
    pub system_prompt: String,
    pub effort: EffortPreset,
    /// The input device; `None` for the automatic choice.
    pub input_device: Option<String>,
    pub tts: TtsConfig,
}

} // verus!
