//! The tray-and-settings edition of the dictation tool: persisted settings,
//! engine status, style presets, noise filtering of transcripts and the
//! per-session state machine.

pub mod app;
pub mod audio;
pub mod engine;
pub mod hotkey;
pub mod llm;
pub mod stt;
