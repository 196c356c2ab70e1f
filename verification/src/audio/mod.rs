//! What the monitors ask of the audio system, and the shapes of its answers.
//!
//! Volumes and levels are fixed-point numbers in millionths: a volume of
//! 50 percent is `50_000_000`, a peak level of 0.2 is `200_000`.

use vstd::prelude::*;

pub mod linux;
pub mod macos;
pub mod windows;

verus! {

/// Volume and mute state of a device.
#[derive(Debug, Clone, Copy, PartialEq, Eq, Structural)]
pub struct AudioInfo {
    /// In percent, from 0 to 100.
    pub volume: u32,
    pub is_muted: bool,
}

/// The audio session of one application.
#[derive(Debug)]
pub struct AudioAppSession {
    /// The name of the process.
    pub name: String,
    /// The volume of the application, in percent.
    pub volume: u32,
    /// Whether the session is active now.
    pub is_active: bool,
    /// The level of the session now, from 0 to 1.
    pub peak_level: u32,
    pub process_id: u32,
    pub window_title: String,
}

/// What an `AudioAppSession` holds, with its texts as character sequences.
pub struct AudioAppSessionView {
    pub name: Seq<char>,
    pub volume: u32,
    pub is_active: bool,
    pub peak_level: u32,
    pub process_id: u32,
    pub window_title: Seq<char>,
}

impl View for AudioAppSession {
    type V = AudioAppSessionView;

    open spec fn view(&self) -> AudioAppSessionView {
        AudioAppSessionView {
            name: self.name@,
            volume: self.volume,
            is_active: self.is_active,
            peak_level: self.peak_level,
            process_id: self.process_id,
            window_title: self.window_title@,
        }
    }
}

impl Clone for AudioAppSession {
    fn clone(&self) -> (r: Self)
        ensures
            r@ == self@,
    {
        AudioAppSession {
            name: self.name.clone(),
            volume: self.volume,
            is_active: self.is_active,
            peak_level: self.peak_level,
            process_id: self.process_id,
            window_title: self.window_title.clone(),
        }
    }
}

/// The views of a list of sessions, in order.
pub open spec fn session_views(v: Seq<AudioAppSession>) -> Seq<AudioAppSessionView> {
    Seq::new(v.len(), |i: int| v[i]@)
}

/// The audio system of a platform. An implementation asks the operating
/// system; an `Err` carries the reason why it could not answer.
pub trait AudioBackend {
    /// Volume and mute state of the default microphone.
    fn get_microphone_volume_and_mute() -> Result<AudioInfo, String>;

    /// The name of the default microphone.
    fn get_microphone_device_name() -> Result<String, String>;

    /// The applications that use the microphone now.
    fn get_apps_using_microphone() -> Result<Vec<String>, String>;

    /// Volume and mute state of the default output device.
    fn get_audio_output_volume_and_mute() -> Result<AudioInfo, String>;

    /// The name of the default output device.
    fn get_audio_output_device_name() -> Result<String, String>;

    /// The level of the audio output now, from 0 to 1.
    fn get_audio_output_peak_level() -> Result<u32, String>;

    /// The applications that play audio now.
    fn get_apps_playing_audio() -> Result<Vec<AudioAppSession>, String>;
}

} // verus!
