//! Push-to-talk dictation: audio capture bookkeeping, WAV framing, hotkey
//! parsing, request planning for speech-to-text and LLM polishing, and the
//! dictation session state machine.

pub mod text;
pub mod encode;
pub mod audio;
pub mod hotkey;
pub mod net;
pub mod stt;
pub mod llm;
pub mod session;
pub mod macos;
