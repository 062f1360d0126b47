//! A small polyphonic tone-mixing core: a fixed set of continuously running
//! sine-wave voices that can be toggled on and off individually, while the
//! mixer renormalizes gain across the active voices so that the summed signal
//! never saturates the output.
//!
//! The mixer is pure bookkeeping: it tracks each voice's playing flag and the
//! gain last applied to it, and decides which backend commands (play, pause,
//! set gain) the audio layer must issue.

pub mod app_message;
pub mod mixer;
pub mod voice;

pub use app_message::AppMessage;
pub use mixer::MixerError;
pub use mixer::VoiceMixer;
pub use voice::ToneVoice;
