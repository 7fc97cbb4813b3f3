//! Text-delivery library for a desktop dictation assistant.
//!
//! The core job: take a finished string of transcribed text and place it
//! into whatever application currently holds input focus. The clipboard is
//! written first, so the text is never lost; platform input-synthesis
//! drivers then attempt an automated paste with retry and fallback, and
//! every failure degrades to "text is on the clipboard, paste manually".

pub mod api_client;
pub mod clipboard;
pub mod device;
pub mod enhance;
pub mod escape;
pub mod guard;
pub mod keys;
pub mod license;
pub mod orchestrator;
pub mod outcome;
pub mod ports;
pub mod prompts;
pub mod strutil;
pub mod stt;

pub use guard::SingleFlight;
pub use outcome::{InjectionError, InjectionOutcome, InjectionReport, InjectionRequest, StrategyId};
