//! Tells whether a voice or video call is in progress on this machine, from
//! what can be observed of it: who uses the microphone, who plays audio,
//! which processes hold network endpoints that look like real-time media,
//! and what the windows are called.
//!
//! `network_monitor` tracks the network signals, `correlation_engine` judges
//! one snapshot of signals, and `monitor` carries the single call slot from
//! tick to tick. The other modules make sense of what the audio system and
//! the tools of the operating system answer; asking them is left to the
//! program that uses this library.

pub mod text;
pub mod fields;
pub mod number;
pub mod clock;
pub mod platform;
pub mod audio;
pub mod correlation_engine;
pub mod network_monitor;
pub mod mic_monitor;
pub mod audio_output_monitor;
pub mod monitor;
pub mod system_info;
