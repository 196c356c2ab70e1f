//! The microphone monitor: one report on the default microphone and on
//! the applications that use it, put together from what the audio system
//! answers. A failing answer is replaced by a default and noted among the
//! report's errors.

use vstd::prelude::*;
use crate::audio::{AudioBackend, AudioInfo};
use crate::network_monitor::clone_strings;
use crate::platform::TargetOs;
use crate::text::views;

verus! {

/// The volume assumed for a microphone whose state could not be read.
pub const DEFAULT_VOLUME: u32 = 50_000_000;

/// The signal level of a microphone that is ready but not in use.
pub const AMBIENT_LEVEL: u32 = 20_000;

/// The least signal level of a microphone in use.
pub const ACTIVE_LEVEL_MIN: u32 = 50_000;

/// The step of the signal level of a microphone in use.
pub const ACTIVE_LEVEL_STEP: u32 = 10_000;

pub const NANOS_PER_MILLI: u64 = 1_000_000;

/// The report on the microphone.
#[derive(Debug)]
pub struct MicStatusReport {
    pub timestamp: String,
    pub mic: MicInfo,
    pub permissions: PermissionsInfo,
    pub conflicts: ConflictsInfo,
    pub driver_status: DriverInfo,
    pub errors: Vec<String>,
}

/// State of the default microphone.
#[derive(Debug)]
pub struct MicInfo {
    pub default_device: String,
    pub is_muted: bool,
    /// In percent.
    pub volume_level: u32,
    /// From 0 to 1.
    pub signal_level: u32,
    pub is_ready: bool,
    pub is_in_use: bool,
}

/// What a `MicInfo` holds, with its text as a character sequence.
pub struct MicInfoView {
    pub default_device: Seq<char>,
    pub is_muted: bool,
    pub volume_level: u32,
    pub signal_level: u32,
    pub is_ready: bool,
    pub is_in_use: bool,
}

impl View for MicInfo {
    type V = MicInfoView;

    open spec fn view(&self) -> MicInfoView {
        MicInfoView {
            default_device: self.default_device@,
            is_muted: self.is_muted,
            volume_level: self.volume_level,
            signal_level: self.signal_level,
            is_ready: self.is_ready,
            is_in_use: self.is_in_use,
        }
    }
}

/// Who may use the microphone.
#[derive(Debug)]
pub struct PermissionsInfo {
    pub global: bool,
    /// Application by application; no application occurs twice.
    pub app_access: Vec<(String, bool)>,
}

/// Who uses the microphone.
#[derive(Debug)]
pub struct ConflictsInfo {
    /// Exactly one application uses the microphone.
    pub exclusive_lock: bool,
    pub apps_using_mic: Vec<String>,
}

/// What a `ConflictsInfo` holds, with its texts as character sequences.
pub struct ConflictsView {
    pub exclusive_lock: bool,
    pub apps_using_mic: Seq<Seq<char>>,
}

impl View for ConflictsInfo {
    type V = ConflictsView;

    open spec fn view(&self) -> ConflictsView {
        ConflictsView {
            exclusive_lock: self.exclusive_lock,
            apps_using_mic: views(self.apps_using_mic@),
        }
    }
}

/// The audio driver.
#[derive(Debug)]
pub struct DriverInfo {
    pub name: String,
    pub version: String,
    pub status: String,
}

/// What a `DriverInfo` holds, as character sequences.
pub struct DriverView {
    pub name: Seq<char>,
    pub version: Seq<char>,
    pub status: Seq<char>,
}

impl View for DriverInfo {
    type V = DriverView;

    open spec fn view(&self) -> DriverView {
        DriverView { name: self.name@, version: self.version@, status: self.status@ }
    }
}

/// The audio driver of a platform, where the platform is supported.
pub open spec fn driver_of(os: TargetOs) -> Option<DriverView> {
    match os {
        TargetOs::Windows => Some(
            DriverView { name: "Windows Audio"@, version: "Built-in"@, status: "OK"@ },
        ),
        TargetOs::Linux => Some(
            DriverView { name: "PulseAudio"@, version: "Built-in"@, status: "OK"@ },
        ),
        TargetOs::MacOs => Some(
            DriverView { name: "Core Audio"@, version: "Built-in"@, status: "OK"@ },
        ),
        TargetOs::Other => None,
    }
}

/// The view of an optional driver.
pub open spec fn driver_view(o: Option<DriverInfo>) -> Option<DriverView> {
    match o {
        Some(d) => Some(d@),
        None => None,
    }
}

/// The audio driver of a platform, where the platform is supported.
pub fn driver_info(os: TargetOs) -> (r: Option<DriverInfo>)
    ensures
        driver_view(r) == driver_of(os),
{
    let name = match os {
        TargetOs::Windows => "Windows Audio".to_string(),
        TargetOs::Linux => "PulseAudio".to_string(),
        TargetOs::MacOs => "Core Audio".to_string(),
        TargetOs::Other => {
            return None;
        },
    };
    Some(DriverInfo { name, version: "Built-in".to_string(), status: "OK".to_string() })
}

/// The signal level shown for a microphone: while it is in use and ready,
/// a level between 0.05 and 0.64 that varies with the millisecond of
/// `now`; the ambient level when it is ready but not in use; zero otherwise.
pub open spec fn signal_level_at(is_in_use: bool, is_ready: bool, now: u64) -> u32 {
    if is_in_use && is_ready {
        (((now / NANOS_PER_MILLI) % 60) * ACTIVE_LEVEL_STEP + ACTIVE_LEVEL_MIN) as u32
    } else if is_ready {
        AMBIENT_LEVEL
    } else {
        0
    }
}

/// The signal level shown for a microphone at `now`.
pub fn signal_level(is_in_use: bool, is_ready: bool, now: u64) -> (r: u32)
    ensures
        r == signal_level_at(is_in_use, is_ready, now),
        r <= 640_000,
{
    if is_in_use && is_ready {
        let phase: u64 = (now / NANOS_PER_MILLI) % 60;
        (phase as u32) * ACTIVE_LEVEL_STEP + ACTIVE_LEVEL_MIN
    } else if is_ready {
        AMBIENT_LEVEL
    } else {
        0
    }
}

/// An answer of the audio system that lists applications, or the
/// reason why there was none.
pub type AppsAnswer = Result<Seq<Seq<char>>, Seq<char>>;

/// An answer of the audio system on the state of a device, or the reason
/// why there was none.
pub type StateAnswer = Result<AudioInfo, Seq<char>>;

/// An answer of the audio system that is a text, or the reason why there
/// was none.
pub type TextAnswer = Result<Seq<char>, Seq<char>>;

/// Whether the answer lists one application at least.
pub open spec fn lists_apps(apps: AppsAnswer) -> bool {
    apps matches Ok(list) && list.len() > 0
}

/// The state of the microphone, from what the audio system answered. A
/// state that could not be read is taken as unmuted at half volume, under
/// the default name; the name is asked for only where the state was read.
/// The microphone is in use when the answer lists an application.
pub open spec fn mic_info_of(
    state: StateAnswer,
    device_name: TextAnswer,
    apps: AppsAnswer,
    now: u64,
) -> MicInfoView {
    let volume_level = match state {
        Ok(info) => info.volume,
        Err(_) => DEFAULT_VOLUME,
    };
    let is_muted = match state {
        Ok(info) => info.is_muted,
        Err(_) => false,
    };
    let is_ready = !is_muted && volume_level > 0;
    MicInfoView {
        default_device: match (state, device_name) {
            (Ok(_), Ok(name)) => name,
            _ => "Default Microphone"@,
        },
        is_muted,
        volume_level,
        signal_level: signal_level_at(lists_apps(apps), is_ready, now),
        is_ready,
        is_in_use: lists_apps(apps),
    }
}

/// The errors noted while the state of the microphone is put together:
/// one for a state that could not be read, then one for a list of
/// applications that could not be had.
pub open spec fn mic_errors_of(state: StateAnswer, apps: AppsAnswer) -> Seq<Seq<char>> {
    (match state {
        Ok(_) => Seq::<Seq<char>>::empty(),
        Err(e) => seq!["Audio backend error: "@ + e],
    }) + (match apps {
        Ok(_) => Seq::<Seq<char>>::empty(),
        Err(e) => seq!["Failed to get mic apps: "@ + e],
    })
}

/// Who uses the microphone, from what the audio system answered: the
/// applications that it lists, or nobody where it gave no list. The
/// microphone is locked when exactly one application uses it.
pub open spec fn conflicts_of(apps: AppsAnswer) -> ConflictsView {
    let apps_using_mic = match apps {
        Ok(list) => list,
        Err(_) => Seq::empty(),
    };
    ConflictsView { exclusive_lock: apps_using_mic.len() == 1, apps_using_mic }
}

/// The error noted for a list of the users of the microphone that could
/// not be had.
pub open spec fn conflict_errors_of(apps: AppsAnswer) -> Seq<Seq<char>> {
    match apps {
        Ok(_) => Seq::empty(),
        Err(e) => seq!["Failed to enumerate mic sessions: "@ + e],
    }
}

/// The state of the microphone is put together from some answers of the
/// audio system, and `after` is `before` with the errors noted for them.
pub open spec fn mic_info_answered(
    mic: MicInfoView,
    before: Seq<Seq<char>>,
    after: Seq<Seq<char>>,
    now: u64,
) -> bool {
    exists|state: StateAnswer, device_name: TextAnswer, apps: AppsAnswer|
        mic == #[trigger] mic_info_of(state, device_name, apps, now) && after == before
            + mic_errors_of(state, apps)
}

/// The users of the microphone are put together from some answer of the
/// audio system, and `after` is `before` with the error noted for it.
pub open spec fn conflicts_answered(
    conflicts: ConflictsView,
    before: Seq<Seq<char>>,
    after: Seq<Seq<char>>,
) -> bool {
    exists|apps: AppsAnswer|
        conflicts == #[trigger] conflicts_of(apps) && after == before + conflict_errors_of(apps)
}

/// State and users of the microphone are put together from some answers
/// of the audio system, the state first, and `after` is `before` with
/// the errors noted for them, in this order.
pub open spec fn report_answered(
    mic: MicInfoView,
    conflicts: ConflictsView,
    before: Seq<Seq<char>>,
    after: Seq<Seq<char>>,
    now: u64,
) -> bool {
    exists|noted: Seq<Seq<char>>|
        #[trigger] mic_info_answered(mic, before, noted, now) && conflicts_answered(
            conflicts,
            noted,
            after,
        )
}

/// The view of an answer on the state of a device.
pub open spec fn state_answer(r: Result<AudioInfo, String>) -> StateAnswer {
    match r {
        Ok(info) => Ok(info),
        Err(e) => Err(e@),
    }
}

/// The view of an answer that lists applications.
pub open spec fn apps_answer(r: Result<Vec<String>, String>) -> AppsAnswer {
    match r {
        Ok(list) => Ok(views(list@)),
        Err(e) => Err(e@),
    }
}

/// `prefix`, then `reason`.
pub fn error_message(prefix: &str, reason: &str) -> (r: String)
    ensures
        r@ == prefix@ + reason@,
{
    let mut message = prefix.to_string();
    message.append(reason);
    message
}

/// Watches the microphone.
pub struct MicMonitor {
    errors: Vec<String>,
}

impl View for MicMonitor {
    type V = Seq<Seq<char>>;

    /// The errors noted so far, oldest first.
    closed spec fn view(&self) -> Seq<Seq<char>> {
        views(self.errors@)
    }
}

impl MicMonitor {
    /// A monitor that has noted no error.
    pub fn new() -> (r: Result<Self, String>)
        ensures
            r matches Ok(monitor) && monitor@ == Seq::<Seq<char>>::empty(),
    {
        let monitor = MicMonitor { errors: Vec::new() };
        assert(monitor@ =~= Seq::<Seq<char>>::empty());
        Ok(monitor)
    }

    /// Notes an error.
    fn note(&mut self, message: String)
        ensures
            final(self)@ == old(self)@.push(message@),
    {
        self.errors.push(message);
        assert(self@ =~= old(self)@.push(message@));
    }

    /// The state of the microphone from what the audio system answered;
    /// each failing answer is noted as an error.
    pub fn mic_info_from(
        &mut self,
        state: Result<AudioInfo, String>,
        device_name: Result<String, String>,
        apps: Result<Vec<String>, String>,
        now: u64,
    ) -> (r: MicInfo)
        ensures
            r@ == mic_info_of(
                state_answer(state),
                crate::platform::result_view(device_name),
                apps_answer(apps),
                now,
            ),
            final(self)@ == old(self)@ + mic_errors_of(state_answer(state), apps_answer(apps)),
    {
        let ghost before = self@;
        let (device_name, volume_level, is_muted) = match state {
            Ok(audio_info) => {
                let name = match device_name {
                    Ok(name) => name,
                    Err(_) => "Default Microphone".to_string(),
                };
                (name, audio_info.volume, audio_info.is_muted)
            },
            Err(e) => {
                self.note(error_message("Audio backend error: ", e.as_str()));
                ("Default Microphone".to_string(), DEFAULT_VOLUME, false)
            },
        };
        let is_in_use = match apps {
            Ok(list) => list.len() > 0,
            Err(e) => {
                self.note(error_message("Failed to get mic apps: ", e.as_str()));
                false
            },
        };
        assert(self@ =~= before + mic_errors_of(state_answer(state), apps_answer(apps)));
        let is_ready = !is_muted && volume_level > 0;
        MicInfo {
            default_device: device_name,
            is_muted,
            volume_level,
            signal_level: signal_level(is_in_use, is_ready, now),
            is_ready,
            is_in_use,
        }
    }

    /// Who uses the microphone, from what the audio system answered; a
    /// failing answer is noted as an error and counts as nobody.
    pub fn conflicts_from(&mut self, apps: Result<Vec<String>, String>) -> (r: ConflictsInfo)
        ensures
            r@ == conflicts_of(apps_answer(apps)),
            final(self)@ == old(self)@ + conflict_errors_of(apps_answer(apps)),
    {
        let ghost before = self@;
        let apps_using_mic = match apps {
            Ok(list) => list,
            Err(e) => {
                self.note(error_message("Failed to enumerate mic sessions: ", e.as_str()));
                Vec::new()
            },
        };
        assert(self@ =~= before + conflict_errors_of(apps_answer(apps)));
        let exclusive_lock = apps_using_mic.len() == 1;
        let r = ConflictsInfo { exclusive_lock, apps_using_mic };
        assert(r@.apps_using_mic =~= conflicts_of(apps_answer(apps)).apps_using_mic);
        r
    }

    /// The state of the microphone, asked of the audio system.
    fn get_mic_info<B: AudioBackend>(&mut self, now: u64) -> (r: MicInfo)
        ensures
            mic_info_answered(r@, old(self)@, final(self)@, now),
    {
        let state = B::get_microphone_volume_and_mute();
        let device_name = match &state {
            Ok(_) => B::get_microphone_device_name(),
            Err(_) => Ok("Default Microphone".to_string()),
        };
        let apps = B::get_apps_using_microphone();
        let ghost answers = (
            state_answer(state),
            crate::platform::result_view(device_name),
            apps_answer(apps),
        );
        let r = self.mic_info_from(state, device_name, apps, now);
        assert(r@ == mic_info_of(answers.0, answers.1, answers.2, now));
        r
    }

    /// Who uses the microphone, asked of the audio system.
    pub fn get_conflicts_info<B: AudioBackend>(&mut self) -> (r: ConflictsInfo)
        ensures
            conflicts_answered(r@, old(self)@, final(self)@),
    {
        let apps = B::get_apps_using_microphone();
        let ghost answer = apps_answer(apps);
        let r = self.conflicts_from(apps);
        assert(r@ == conflicts_of(answer));
        r
    }

    /// The report on the microphone at `now`, stamped `timestamp`. On a
    /// platform that is not supported there is no report. The state of the
    /// microphone is put together from the answers of the audio system, then
    /// its users from a second answer, and the errors noted on the way are
    /// those of the report.
    pub fn build_status_report<B: AudioBackend>(
        &mut self,
        os: TargetOs,
        timestamp: String,
        now: u64,
    ) -> (r: Result<MicStatusReport, String>)
        ensures
            match r {
                Ok(report) => {
                    &&& os.is_supported()
                    &&& report.timestamp@ == timestamp@
                    &&& report_answered(
                        report.mic@,
                        report.conflicts@,
                        old(self)@,
                        final(self)@,
                        now,
                    )
                    &&& report.permissions.global
                    &&& report.permissions.app_access@.len() == 0
                    &&& driver_of(os) == Some(report.driver_status@)
                    &&& views(report.errors@) == final(self)@
                },
                Err(e) => {
                    &&& !os.is_supported()
                    &&& e@
                        == "Microphone monitoring is only supported on Windows, Linux, and macOS"@
                    &&& final(self)@ == old(self)@
                },
            },
    {
        let driver_status = match driver_info(os) {
            Some(driver) => driver,
            None => {
                return Err(
                    "Microphone monitoring is only supported on Windows, Linux, and macOS".to_string(),
                );
            },
        };
        let mic_info = self.get_mic_info::<B>(now);
        let ghost noted = self@;
        let conflicts = self.get_conflicts_info::<B>();
        assert(mic_info_answered(mic_info@, old(self)@, noted, now) && conflicts_answered(
            conflicts@,
            noted,
            self@,
        ));
        assert(report_answered(mic_info@, conflicts@, old(self)@, self@, now));
        let permissions = PermissionsInfo { global: true, app_access: Vec::new() };
        let errors = clone_strings(&self.errors);
        Ok(
            MicStatusReport {
                timestamp,
                mic: mic_info,
                permissions,
                conflicts,
                driver_status,
                errors,
            },
        )
    }
}

} // verus!
