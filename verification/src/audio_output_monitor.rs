//! The audio output monitor: one report on the default output device and
//! on the applications that play audio, put together from what the audio
//! system answers. A failing answer is replaced by a default and noted
//! among the report's errors.

use vstd::prelude::*;
use crate::audio::{session_views, AudioAppSession, AudioAppSessionView, AudioBackend, AudioInfo};
use crate::mic_monitor::{error_message, state_answer, StateAnswer, TextAnswer};
use crate::network_monitor::clone_strings;
use crate::platform::TargetOs;
use crate::text::views;

verus! {

/// The volume assumed for an output device whose state could not be read.
pub const DEFAULT_VOLUME: u32 = 50_000_000;

/// Output above this peak level counts as audio being played.
pub const ACTIVE_PEAK: u32 = 10_000;

/// The report on the audio output.
#[derive(Debug)]
pub struct AudioOutputReport {
    pub timestamp: String,
    pub output: AudioOutputInfo,
    pub active_apps: Vec<AudioAppInfo>,
    pub errors: Vec<String>,
}

/// State of the default output device.
#[derive(Debug)]
pub struct AudioOutputInfo {
    pub default_device: String,
    pub is_muted: bool,
    /// In percent.
    pub volume_level: u32,
    /// From 0 to 1.
    pub peak_level: u32,
    pub is_active: bool,
}

/// What an `AudioOutputInfo` holds, with its text as a character sequence.
pub struct AudioOutputView {
    pub default_device: Seq<char>,
    pub is_muted: bool,
    pub volume_level: u32,
    pub peak_level: u32,
    pub is_active: bool,
}

impl View for AudioOutputInfo {
    type V = AudioOutputView;

    open spec fn view(&self) -> AudioOutputView {
        AudioOutputView {
            default_device: self.default_device@,
            is_muted: self.is_muted,
            volume_level: self.volume_level,
            peak_level: self.peak_level,
            is_active: self.is_active,
        }
    }
}

/// An application that plays audio.
#[derive(Debug)]
pub struct AudioAppInfo {
    pub name: String,
    /// In percent.
    pub volume: u32,
    pub is_playing: bool,
    /// From 0 to 1.
    pub peak_level: u32,
    pub process_id: u32,
    pub window_title: String,
}

/// What an `AudioAppInfo` holds, with its texts as character sequences.
pub struct AudioAppView {
    pub name: Seq<char>,
    pub volume: u32,
    pub is_playing: bool,
    pub peak_level: u32,
    pub process_id: u32,
    pub window_title: Seq<char>,
}

impl View for AudioAppInfo {
    type V = AudioAppView;

    open spec fn view(&self) -> AudioAppView {
        AudioAppView {
            name: self.name@,
            volume: self.volume,
            is_playing: self.is_playing,
            peak_level: self.peak_level,
            process_id: self.process_id,
            window_title: self.window_title@,
        }
    }
}

/// The views of a list of applications, in order.
pub open spec fn app_views(v: Seq<AudioAppInfo>) -> Seq<AudioAppView> {
    Seq::new(v.len(), |i: int| v[i]@)
}

/// The application that a session is reported as.
pub open spec fn app_of_session(session: AudioAppSessionView) -> AudioAppView {
    AudioAppView {
        name: session.name,
        volume: session.volume,
        is_playing: session.is_active,
        peak_level: session.peak_level,
        process_id: session.process_id,
        window_title: session.window_title,
    }
}

/// An answer of the audio system that is a level, or the reason why
/// there was none.
pub type LevelAnswer = Result<u32, Seq<char>>;

/// An answer of the audio system that lists sessions, or the reason why
/// there was none.
pub type SessionsAnswer = Result<Seq<AudioAppSessionView>, Seq<char>>;

/// The state of the output device, from what the audio system answered.
/// A state that could not be read is taken as unmuted at half volume,
/// under the default name; the name is asked for only where the state
/// was read. A peak level that could not be read is taken as zero.
pub open spec fn output_info_of(
    state: StateAnswer,
    device_name: TextAnswer,
    peak: LevelAnswer,
) -> AudioOutputView {
    let peak_level = match peak {
        Ok(level) => level,
        Err(_) => 0,
    };
    AudioOutputView {
        default_device: match (state, device_name) {
            (Ok(_), Ok(name)) => name,
            _ => "Default Speakers"@,
        },
        is_muted: match state {
            Ok(info) => info.is_muted,
            Err(_) => false,
        },
        volume_level: match state {
            Ok(info) => info.volume,
            Err(_) => DEFAULT_VOLUME,
        },
        peak_level,
        is_active: peak_level > ACTIVE_PEAK,
    }
}

/// The errors noted while the state of the output device is put
/// together: one for a state that could not be read, then one for a peak
/// level that could not be read.
pub open spec fn output_errors_of(state: StateAnswer, peak: LevelAnswer) -> Seq<Seq<char>> {
    (match state {
        Ok(_) => Seq::<Seq<char>>::empty(),
        Err(e) => seq!["Audio output error: "@ + e],
    }) + (match peak {
        Ok(_) => Seq::<Seq<char>>::empty(),
        Err(e) => seq!["Failed to get peak level: "@ + e],
    })
}

/// The applications that play audio, from what the audio system
/// answered: one for each session that it lists, in order, and none
/// where it gave no list.
pub open spec fn active_apps_of(sessions: SessionsAnswer) -> Seq<AudioAppView> {
    match sessions {
        Ok(list) => list.map_values(|s: AudioAppSessionView| app_of_session(s)),
        Err(_) => Seq::empty(),
    }
}

/// The error noted for a list of sessions that could not be had.
pub open spec fn session_errors_of(sessions: SessionsAnswer) -> Seq<Seq<char>> {
    match sessions {
        Ok(_) => Seq::empty(),
        Err(e) => seq!["Failed to get playing apps: "@ + e],
    }
}

/// The view of an answer that is a level.
pub open spec fn level_answer(r: Result<u32, String>) -> LevelAnswer {
    match r {
        Ok(level) => Ok(level),
        Err(e) => Err(e@),
    }
}

/// The view of an answer that lists sessions.
pub open spec fn sessions_answer(r: Result<Vec<AudioAppSession>, String>) -> SessionsAnswer {
    match r {
        Ok(list) => Ok(session_views(list@)),
        Err(e) => Err(e@),
    }
}

/// The state of the output device is put together from some answers of
/// the audio system, and `after` is `before` with the errors noted for them.
pub open spec fn output_info_answered(
    output: AudioOutputView,
    before: Seq<Seq<char>>,
    after: Seq<Seq<char>>,
) -> bool {
    exists|state: StateAnswer, device_name: TextAnswer, peak: LevelAnswer|
        output == #[trigger] output_info_of(state, device_name, peak) && after == before
            + output_errors_of(state, peak)
}

/// The applications that play audio are put together from some answer
/// of the audio system, and `after` is `before` with the error noted for it.
pub open spec fn active_apps_answered(
    apps: Seq<AudioAppView>,
    before: Seq<Seq<char>>,
    after: Seq<Seq<char>>,
) -> bool {
    exists|sessions: SessionsAnswer|
        apps == #[trigger] active_apps_of(sessions) && after == before + session_errors_of(
            sessions,
        )
}

/// Output device and applications are put together from some answers of
/// the audio system, the device first, and `after` is `before` with the
/// errors noted for them, in this order.
pub open spec fn report_answered(
    output: AudioOutputView,
    apps: Seq<AudioAppView>,
    before: Seq<Seq<char>>,
    after: Seq<Seq<char>>,
) -> bool {
    exists|noted: Seq<Seq<char>>|
        #[trigger] output_info_answered(output, before, noted) && active_apps_answered(
            apps,
            noted,
            after,
        )
}

/// Watches the audio output.
pub struct AudioOutputMonitor {
    errors: Vec<String>,
}

impl View for AudioOutputMonitor {
    type V = Seq<Seq<char>>;

    /// The errors noted so far, oldest first.
    closed spec fn view(&self) -> Seq<Seq<char>> {
        views(self.errors@)
    }
}

impl AudioOutputMonitor {
    /// A monitor that has noted no error.
    pub fn new() -> (r: Result<Self, String>)
        ensures
            r matches Ok(monitor) && monitor@ == Seq::<Seq<char>>::empty(),
    {
        let monitor = AudioOutputMonitor { errors: Vec::new() };
        assert(monitor@ =~= Seq::<Seq<char>>::empty());
        Ok(monitor)
    }

    /// Notes an error.
    fn note(&mut self, message: String)
        ensures
            final(self)@ == old(self)@.push(message@),
    {
        self.errors.push(message);
        assert(self@ =~= old(self)@.push(message@));
    }

    /// The state of the output device from what the audio system
    /// answered; each failing answer is noted as an error.
    pub fn output_info_from(
        &mut self,
        state: Result<AudioInfo, String>,
        device_name: Result<String, String>,
        peak: Result<u32, String>,
    ) -> (r: AudioOutputInfo)
        ensures
            r@ == output_info_of(
                state_answer(state),
                crate::platform::result_view(device_name),
                level_answer(peak),
            ),
            final(self)@ == old(self)@ + output_errors_of(state_answer(state), level_answer(peak)),
    {
        let ghost before = self@;
        let (device_name, volume_level, is_muted) = match state {
            Ok(audio_info) => {
                let name = match device_name {
                    Ok(name) => name,
                    Err(_) => "Default Speakers".to_string(),
                };
                (name, audio_info.volume, audio_info.is_muted)
            },
            Err(e) => {
                self.note(error_message("Audio output error: ", e.as_str()));
                ("Default Speakers".to_string(), DEFAULT_VOLUME, false)
            },
        };
        let peak_level = match peak {
            Ok(level) => level,
            Err(e) => {
                self.note(error_message("Failed to get peak level: ", e.as_str()));
                0
            },
        };
        assert(self@ =~= before + output_errors_of(state_answer(state), level_answer(peak)));
        let is_active = peak_level > ACTIVE_PEAK;
        AudioOutputInfo {
            default_device: device_name,
            is_muted,
            volume_level,
            peak_level,
            is_active,
        }
    }

    /// The applications that play audio, from what the audio system
    /// answered: one for each session, in order. A failing answer is
    /// noted as an error and counts as no application.
    pub fn active_apps_from(&mut self, sessions: Result<Vec<AudioAppSession>, String>) -> (r: Vec<
        AudioAppInfo,
    >)
        ensures
            app_views(r@) == active_apps_of(sessions_answer(sessions)),
            final(self)@ == old(self)@ + session_errors_of(sessions_answer(sessions)),
    {
        let ghost before = self@;
        match sessions {
            Ok(list) => {
                let mut out: Vec<AudioAppInfo> = Vec::new();
                let mut i: usize = 0;
                while i < list.len()
                    invariant
                        i <= list.len(),
                        out@.len() == i,
                        forall|j: int|
                            0 <= j < i ==> (#[trigger] out@[j])@ == app_of_session(list@[j]@),
                    decreases list.len() - i,
                {
                    let app = &list[i];
                    out.push(
                        AudioAppInfo {
                            name: app.name.clone(),
                            volume: app.volume,
                            is_playing: app.is_active,
                            peak_level: app.peak_level,
                            process_id: app.process_id,
                            window_title: app.window_title.clone(),
                        },
                    );
                    i += 1;
                }
                assert(app_views(out@) =~= session_views(list@).map_values(
                    |s: AudioAppSessionView| app_of_session(s),
                ));
                assert(self@ =~= before + Seq::<Seq<char>>::empty());
                out
            },
            Err(e) => {
                self.note(error_message("Failed to get playing apps: ", e.as_str()));
                assert(self@ =~= before + seq!["Failed to get playing apps: "@ + e@]);
                let out: Vec<AudioAppInfo> = Vec::new();
                assert(app_views(out@) =~= Seq::<AudioAppView>::empty());
                out
            },
        }
    }

    /// The state of the output device, asked of the audio system.
    fn get_output_info<B: AudioBackend>(&mut self) -> (r: AudioOutputInfo)
        ensures
            output_info_answered(r@, old(self)@, final(self)@),
    {
        let state = B::get_audio_output_volume_and_mute();
        let device_name = match &state {
            Ok(_) => B::get_audio_output_device_name(),
            Err(_) => Ok("Default Speakers".to_string()),
        };
        let peak = B::get_audio_output_peak_level();
        let ghost answers = (
            state_answer(state),
            crate::platform::result_view(device_name),
            level_answer(peak),
        );
        let r = self.output_info_from(state, device_name, peak);
        assert(r@ == output_info_of(answers.0, answers.1, answers.2));
        r
    }

    /// The applications that play audio, asked of the audio system.
    fn get_active_apps<B: AudioBackend>(&mut self) -> (r: Vec<AudioAppInfo>)
        ensures
            active_apps_answered(app_views(r@), old(self)@, final(self)@),
    {
        let sessions = B::get_apps_playing_audio();
        let ghost answer = sessions_answer(sessions);
        let r = self.active_apps_from(sessions);
        assert(app_views(r@) == active_apps_of(answer));
        r
    }

    /// The report on the audio output, stamped `timestamp`. On a platform
    /// that is not supported there is no report. The state of the output
    /// device is put together from the answers of the audio system, then
    /// the applications from a further answer, and the errors noted on the
    /// way are those of the report.
    pub fn build_status_report<B: AudioBackend>(&mut self, os: TargetOs, timestamp: String) -> (r:
        Result<AudioOutputReport, String>)
        ensures
            match r {
                Ok(report) => {
                    &&& os.is_supported()
                    &&& report.timestamp@ == timestamp@
                    &&& report_answered(
                        report.output@,
                        app_views(report.active_apps@),
                        old(self)@,
                        final(self)@,
                    )
                    &&& views(report.errors@) == final(self)@
                },
                Err(e) => {
                    &&& !os.is_supported()
                    &&& e@
                        == "Audio output monitoring is only supported on Windows, Linux, and macOS"@
                    &&& final(self)@ == old(self)@
                },
            },
    {
        if !os.supported() {
            return Err(
                "Audio output monitoring is only supported on Windows, Linux, and macOS".to_string(),
            );
        }
        let output = self.get_output_info::<B>();
        let ghost noted = self@;
        let active_apps = self.get_active_apps::<B>();
        assert(output_info_answered(output@, old(self)@, noted) && active_apps_answered(
            app_views(active_apps@),
            noted,
            self@,
        ));
        let errors = clone_strings(&self.errors);
        Ok(AudioOutputReport { timestamp, output, active_apps, errors })
    }
}

} // verus!
