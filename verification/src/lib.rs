//! Single-flight speech-to-text session orchestration and backend protocol
//! adapters, with the protocol logic verified.
//!
//! The daemon around this library accepts one streaming transcription request
//! at a time, captures microphone audio, forwards it to a remote recognition
//! backend over a duplex connection, and streams structured transcription
//! events back. This crate holds everything that decides: the single-session
//! slot, the staged duplex protocol of each backend as an explicit state
//! machine, the wire request builders, and the profile registry. The I/O that
//! carries those decisions out lives outside the library.

pub mod client_store;
pub mod config_store;
pub mod error;
pub mod paraformer_config;
pub mod paraformer_finish_task;
pub mod paraformer_machine;
pub mod paraformer_results;
pub mod paraformer_run_task;
pub mod playback;
pub mod profile_config;
pub mod pulseaudio_config;
pub mod qwen_audio_append;
pub mod qwen_config;
pub mod qwen_machine;
pub mod qwen_session_finish;
pub mod qwen_session_update;
pub mod qwen_types;
pub mod events;
pub mod service;
pub mod session;
