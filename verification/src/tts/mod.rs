//! Speech synthesis: the errors, the audio and the engines.
pub mod engine;
pub mod kokoro;
pub mod piper;
pub mod voices;
