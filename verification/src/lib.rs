//! Streaming speech-transcription service core.
//!
//! Clients stream audio over a persistent connection; the service normalizes
//! it, runs it through a single shared speech-recognition engine under an
//! exclusive-access discipline, refines the transcript through an ordered
//! chain of optional text-correction capabilities, and streams results back.

pub mod audio;
pub mod bert;
pub mod chain;
pub mod chars;
pub mod client;
pub mod clock;
pub mod config;
pub mod llm;
pub mod protocol;
pub mod runtime;
pub mod session;
pub mod state;
pub mod whisper;

pub use config::ModelPaths;
pub use config::WhisperConfig;
