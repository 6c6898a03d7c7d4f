//! Safe, typed adapter around a proprietary speech-synthesis engine.
//!
//! The crate models the engine's voice-parameter configuration, resolves
//! named voice presets to concrete parameter records, translates the
//! engine's numeric failure codes into typed errors, and interprets the
//! raw reply of the boundary call into either owned audio bytes or a
//! typed error. The boundary call itself is foreign code and lives with
//! the embedding program; everything here is ordinary verified logic on
//! plain values.

pub mod voice;
pub mod error;
pub mod engine;

pub use voice::AqtkVoiceBase;
pub use voice::AqtkVoiceParams;
pub use voice::Voice;
pub use error::AqtkError;
pub use error::SynthError;
pub use engine::AquesTalk;
pub use engine::EngineReply;
