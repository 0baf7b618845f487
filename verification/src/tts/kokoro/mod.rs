//! The Kokoro engine.
pub mod engine;
pub mod g2p;
pub mod npy;
pub mod onnx;
pub mod voices;
