//! The Piper engine.
pub mod config;
pub mod engine;
pub mod g2p;
pub mod onnx;
pub mod phoneme;
pub mod spanish;
