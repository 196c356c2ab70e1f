//! Windows: what is made of the audio sessions that the system lists.

use vstd::prelude::*;
use crate::audio::{AudioAppSession, AudioAppSessionView, AudioInfo};
use crate::correlation_engine::opt_view;
use crate::platform::PlatformUtils;
use crate::text::{chars_of, views};

verus! {

/// A volume between 0 and 1 in percent; a volume too large to be held
/// is the greatest that can be.
pub open spec fn percent_of_scalar(scalar: u32) -> u32 {
    if scalar as int * 100 <= u32::MAX {
        (scalar * 100) as u32
    } else {
        u32::MAX
    }
}

/// A volume between 0 and 1 in percent.
pub fn scalar_percent(scalar: u32) -> (r: u32)
    ensures
        r == percent_of_scalar(scalar),
{
    let scaled: u64 = scalar as u64 * 100;
    if scaled <= u32::MAX as u64 {
        scaled as u32
    } else {
        u32::MAX
    }
}

/// Volume and mute state of a device, from the volume between 0 and 1
/// and the mute state that its endpoint reports.
pub fn device_state(volume_scalar: u32, is_muted: bool) -> (r: AudioInfo)
    ensures
        r == (AudioInfo { volume: percent_of_scalar(volume_scalar), is_muted }),
{
    AudioInfo { volume: scalar_percent(volume_scalar), is_muted }
}

/// The name shown for the default microphone, from the id of its
/// endpoint.
pub fn get_microphone_device_name(endpoint_id: &str) -> (r: String)
    ensures
        r@ == if endpoint_id@.len() == 0 {
            "Default Microphone"@
        } else {
            "Microphone"@
        },
{
    let cs = chars_of(endpoint_id);
    if cs.len() == 0 {
        "Default Microphone".to_string()
    } else {
        "Microphone".to_string()
    }
}

/// The name shown for the default output device, from the id of its
/// endpoint.
pub fn get_audio_output_device_name(endpoint_id: &str) -> (r: String)
    ensures
        r@ == if endpoint_id@.len() == 0 {
            "Default Speakers"@
        } else {
            "Speakers"@
        },
{
    let cs = chars_of(endpoint_id);
    if cs.len() == 0 {
        "Default Speakers".to_string()
    } else {
        "Speakers".to_string()
    }
}

/// An audio session as the system lists it. What could not be learned
/// of it is `None`.
#[derive(Debug)]
pub struct SessionInfo {
    pub process_id: u32,
    pub process_name: Option<String>,
    /// Whether the session is in the active state.
    pub is_active: Option<bool>,
    /// The volume of the session, between 0 and 1.
    pub volume: Option<u32>,
    /// The peak level of the session, between 0 and 1.
    pub peak_level: Option<u32>,
}

/// What a `SessionInfo` holds, with its name as a character sequence.
pub struct SessionInfoView {
    pub process_id: u32,
    pub process_name: Option<Seq<char>>,
    pub is_active: Option<bool>,
    pub volume: Option<u32>,
    pub peak_level: Option<u32>,
}

impl View for SessionInfo {
    type V = SessionInfoView;

    open spec fn view(&self) -> SessionInfoView {
        SessionInfoView {
            process_id: self.process_id,
            process_name: opt_view(self.process_name),
            is_active: self.is_active,
            volume: self.volume,
            peak_level: self.peak_level,
        }
    }
}

/// The views of a list of sessions, in order.
pub open spec fn info_views(v: Seq<SessionInfo>) -> Seq<SessionInfoView> {
    Seq::new(v.len(), |i: int| v[i]@)
}

/// Whether a capture session shows a user of the microphone: it belongs
/// to a process other than the system's, whose name is known, and is active.
pub open spec fn is_recording(session: SessionInfoView) -> bool {
    session.process_id != 0 && session.process_name is Some && session.is_active == Some(true)
}

/// The users of the microphone among the first `upto` capture sessions.
pub open spec fn recording_upto(sessions: Seq<SessionInfoView>, upto: int) -> Seq<Seq<char>>
    decreases upto,
{
    if upto <= 0 {
        Seq::empty()
    } else {
        let before = recording_upto(sessions, upto - 1);
        if is_recording(sessions[upto - 1]) {
            before.push(sessions[upto - 1].process_name->0)
        } else {
            before
        }
    }
}

/// The applications that use the microphone: the names of the processes
/// of the active capture sessions, in order.
pub fn get_apps_using_microphone(sessions: &Vec<SessionInfo>) -> (r: Vec<String>)
    ensures
        views(r@) == recording_upto(info_views(sessions@), sessions@.len() as int),
{
    let ghost all = info_views(sessions@);
    let mut out: Vec<String> = Vec::new();
    let mut i: usize = 0;
    assert(views(out@) =~= recording_upto(all, 0));
    while i < sessions.len()
        invariant
            i <= sessions.len(),
            all == info_views(sessions@),
            views(out@) == recording_upto(all, i as int),
        decreases sessions.len() - i,
    {
        let session = &sessions[i];
        assert(all[i as int] == session@);
        let ghost before = views(out@);
        if session.process_id != 0 {
            if let Some(name) = &session.process_name {
                if let Some(active) = session.is_active {
                    if active {
                        out.push(name.clone());
                        assert(views(out@) =~= before.push(name@));
                    }
                }
            }
        }
        i += 1;
    }
    out
}

/// Whether a render session is reported: it belongs to a process other
/// than the system's, whose name and state are known, and is active or
/// has a level above zero.
pub open spec fn is_reported(session: SessionInfoView) -> bool {
    &&& session.process_id != 0
    &&& session.process_name is Some
    &&& session.is_active matches Some(active)
    &&& (active || level_of(session) > 0)
}

/// The peak level of a session; zero where it is not known.
pub open spec fn level_of(session: SessionInfoView) -> u32 {
    match session.peak_level {
        Some(level) => level,
        None => 0,
    }
}

/// The session reported for a render session, with the title of the
/// window of its process.
pub open spec fn reported_session(session: SessionInfoView, title: Seq<char>) -> AudioAppSessionView {
    AudioAppSessionView {
        name: session.process_name->0,
        volume: match session.volume {
            Some(scalar) => percent_of_scalar(scalar),
            None => 0,
        },
        is_active: session.is_active->0,
        peak_level: level_of(session),
        process_id: session.process_id,
        window_title: title,
    }
}

/// The session reported for a render session, if it is reported.
pub fn session_from(session: &SessionInfo, title: String) -> (r: Option<AudioAppSession>)
    ensures
        match r {
            Some(reported) => is_reported(session@) && reported@ == reported_session(
                session@,
                title@,
            ),
            None => !is_reported(session@),
        },
{
    if session.process_id == 0 {
        return None;
    }
    let name = match &session.process_name {
        Some(name) => name.clone(),
        None => {
            return None;
        },
    };
    let is_active = match session.is_active {
        Some(active) => active,
        None => {
            return None;
        },
    };
    let volume = match session.volume {
        Some(scalar) => scalar_percent(scalar),
        None => 0,
    };
    let peak_level = match session.peak_level {
        Some(level) => level,
        None => 0,
    };
    if is_active || peak_level > 0 {
        Some(
            AudioAppSession {
                name,
                volume,
                is_active,
                peak_level,
                process_id: session.process_id,
                window_title: title,
            },
        )
    } else {
        None
    }
}

/// Whether a render session is reported.
pub fn reports(session: &SessionInfo) -> (r: bool)
    ensures
        r == is_reported(session@),
{
    if session.process_id == 0 || session.process_name.is_none() {
        return false;
    }
    match session.is_active {
        Some(active) => active || match session.peak_level {
            Some(level) => level > 0,
            None => false,
        },
        None => false,
    }
}

/// The positions, among the first `upto` sessions, of those that are
/// reported, in order.
pub open spec fn reported_positions(sessions: Seq<SessionInfoView>, upto: int) -> Seq<int>
    decreases upto,
{
    if upto <= 0 {
        Seq::empty()
    } else {
        let before = reported_positions(sessions, upto - 1);
        if is_reported(sessions[upto - 1]) {
            before.push(upto - 1)
        } else {
            before
        }
    }
}

/// `reported` holds, in order, what is reported for the sessions at
/// `positions`, each under the window title that it carries.
pub open spec fn reports_each(
    reported: Seq<AudioAppSession>,
    sessions: Seq<SessionInfoView>,
    positions: Seq<int>,
) -> bool {
    &&& reported.len() == positions.len()
    &&& forall|k: int|
        0 <= k < reported.len() ==> #[trigger] reports_at(reported[k]@, sessions, positions[k])
}

/// `reported` is what is reported for the session at `position`, under
/// the window title that it carries.
pub open spec fn reports_at(
    reported: AudioAppSessionView,
    sessions: Seq<SessionInfoView>,
    position: int,
) -> bool {
    &&& 0 <= position < sessions.len()
    &&& is_reported(sessions[position])
    &&& reported == reported_session(sessions[position], reported.window_title)
}

/// The applications that play audio: a session for each render session
/// that is reported, in order, each with the title of a window of its
/// process, which is asked of the platform and is empty where the
/// platform knows none.
pub fn get_apps_playing_audio<P: PlatformUtils>(sessions: &Vec<SessionInfo>) -> (r: Vec<
    AudioAppSession,
>)
    ensures
        reports_each(
            r@,
            info_views(sessions@),
            reported_positions(info_views(sessions@), sessions@.len() as int),
        ),
{
    let ghost all = info_views(sessions@);
    let mut out: Vec<AudioAppSession> = Vec::new();
    let mut i: usize = 0;
    while i < sessions.len()
        invariant
            i <= sessions.len(),
            all == info_views(sessions@),
            reports_each(out@, all, reported_positions(all, i as int)),
        decreases sessions.len() - i,
    {
        assert(all[i as int] == sessions@[i as int]@);
        if reports(&sessions[i]) {
            let title = match P::get_window_title(sessions[i].process_id) {
                Ok(title) => title,
                Err(_) => String::new(),
            };
            if let Some(session) = session_from(&sessions[i], title) {
                let ghost before = out@;
                let ghost positions = reported_positions(all, i as int);
                let ghost added = session@;
                out.push(session);
                proof {
                    let next = reported_positions(all, i + 1);
                    assert(next == positions.push(i as int));
                    assert(reports_at(added, all, i as int));
                    assert forall|k: int| 0 <= k < out@.len() implies #[trigger] reports_at(
                        out@[k]@,
                        all,
                        next[k],
                    ) by {
                        if k < before.len() {
                            assert(out@[k] == before[k]);
                            assert(next[k] == positions[k]);
                            assert(reports_at(before[k]@, all, positions[k]));
                        } else {
                            assert(out@[k]@ == added);
                        }
                    }
                }
            } else {
                assert(false);
            }
        } else {
            assert(reported_positions(all, i + 1) == reported_positions(all, i as int));
        }
        i += 1;
    }
    out
}

} // verus!
