//! The call-lifecycle controller: one tick takes what the collaborators saw
//! and the state of the tick before, and gives the new state. A single slot
//! holds the call in progress; a call whose signals have gone is kept for a
//! grace period before the slot is cleared.
//!
//! Times are nanoseconds since the epoch.

use vstd::prelude::*;
use crate::audio_output_monitor::{app_views, AudioAppInfo, AudioAppView};
use crate::correlation_engine::{
    evaluation, keeps_call, lowered, opt_view, CorrelationEngine, MultiSignal, SignalView,
    NEGLIGIBLE_PEAK,
};
use crate::network_monitor::{NetworkMonitor, WebRtcSignalView};
use crate::text::{
    contains, contains_seq, join_spaced, lowercase, same_text, spaced, to_lowercase,
};

verus! {

/// How long a call is kept after its signals have gone.
pub const CALL_END_GRACE_PERIOD: u64 = 2_000_000_000;

/// The output level assumed for a process that is playing audio.
pub const ASSUMED_PEAK_LEVEL: u32 = 100_000;

/// A process that plays audio or uses the microphone.
#[derive(Debug)]
pub struct AudioSource {
    pub name: String,
    pub process_id: u32,
    pub window_title: String,
    pub detected_app: Option<String>,
}

/// What an `AudioSource` holds, with its texts as character sequences.
pub struct AudioSourceView {
    pub name: Seq<char>,
    pub process_id: u32,
    pub window_title: Seq<char>,
    pub detected_app: Option<Seq<char>>,
}

impl View for AudioSource {
    type V = AudioSourceView;

    open spec fn view(&self) -> AudioSourceView {
        AudioSourceView {
            name: self.name@,
            process_id: self.process_id,
            window_title: self.window_title@,
            detected_app: opt_view(self.detected_app),
        }
    }
}

/// A copy of an optional string.
pub fn clone_opt(o: &Option<String>) -> (r: Option<String>)
    ensures
        opt_view(r) == opt_view(*o),
{
    match o {
        Some(s) => Some(s.clone()),
        None => None,
    }
}

impl Clone for AudioSource {
    fn clone(&self) -> (r: Self)
        ensures
            r@ == self@,
    {
        AudioSource {
            name: self.name.clone(),
            process_id: self.process_id,
            window_title: self.window_title.clone(),
            detected_app: clone_opt(&self.detected_app),
        }
    }
}

/// The call in progress.
#[derive(Debug)]
pub struct CallInfo {
    pub app: String,
    pub process_id: u32,
    pub window_title: String,
    pub has_mic: bool,
    pub has_audio: bool,
    pub has_webrtc: bool,
    /// In millionths.
    pub confidence: u32,
    /// The wall-clock time at which the call began, as it is shown.
    pub started_at: String,
    /// When the call's signals last held.
    pub last_seen: u64,
    /// When the call began.
    pub call_started_system_time: u64,
}

/// What a `CallInfo` holds, with its texts as character sequences.
pub struct CallView {
    pub app: Seq<char>,
    pub process_id: u32,
    pub window_title: Seq<char>,
    pub has_mic: bool,
    pub has_audio: bool,
    pub has_webrtc: bool,
    pub confidence: u32,
    pub started_at: Seq<char>,
    pub last_seen: u64,
    pub call_started_system_time: u64,
}

impl View for CallInfo {
    type V = CallView;

    open spec fn view(&self) -> CallView {
        CallView {
            app: self.app@,
            process_id: self.process_id,
            window_title: self.window_title@,
            has_mic: self.has_mic,
            has_audio: self.has_audio,
            has_webrtc: self.has_webrtc,
            confidence: self.confidence,
            started_at: self.started_at@,
            last_seen: self.last_seen,
            call_started_system_time: self.call_started_system_time,
        }
    }
}

impl Clone for CallInfo {
    fn clone(&self) -> (r: Self)
        ensures
            r@ == self@,
    {
        CallInfo {
            app: self.app.clone(),
            process_id: self.process_id,
            window_title: self.window_title.clone(),
            has_mic: self.has_mic,
            has_audio: self.has_audio,
            has_webrtc: self.has_webrtc,
            confidence: self.confidence,
            started_at: self.started_at.clone(),
            last_seen: self.last_seen,
            call_started_system_time: self.call_started_system_time,
        }
    }
}

/// The state after a tick: the call in progress, if any, and the other
/// processes that play audio.
#[derive(Debug)]
pub struct MonitorState {
    pub active_call: Option<CallInfo>,
    pub other_audio_sources: Vec<AudioSource>,
}

/// What a `MonitorState` holds.
pub struct StateView {
    pub active_call: Option<CallView>,
    pub other_audio_sources: Seq<AudioSourceView>,
}

/// The views of a list of audio sources, in order.
pub open spec fn source_views(v: Seq<AudioSource>) -> Seq<AudioSourceView> {
    Seq::new(v.len(), |i: int| v[i]@)
}

/// The view of an optional call.
pub open spec fn call_view(o: Option<CallInfo>) -> Option<CallView> {
    match o {
        Some(c) => Some(c@),
        None => None,
    }
}

impl View for MonitorState {
    type V = StateView;

    open spec fn view(&self) -> StateView {
        StateView {
            active_call: call_view(self.active_call),
            other_audio_sources: source_views(self.other_audio_sources@),
        }
    }
}

/// The call app that a lower-case text names, by the first marker found in
/// this order: the meeting site, `meet`, `slack`, `zoom`, `teams`, `whatsapp`.
pub open spec fn call_app_label(text: Seq<char>) -> Option<Seq<char>> {
    if contains_seq(text, "meet.google.com"@) || contains_seq(text, "meet"@) {
        Some("Google Meet"@)
    } else if contains_seq(text, "slack"@) {
        Some("Slack"@)
    } else if contains_seq(text, "zoom"@) {
        Some("Zoom"@)
    } else if contains_seq(text, "teams"@) {
        Some("Microsoft Teams"@)
    } else if contains_seq(text, "whatsapp"@) {
        Some("WhatsApp"@)
    } else {
        None
    }
}

/// Whether a lower-case process name is that of a browser.
pub open spec fn browser_named(name: Seq<char>) -> bool {
    ||| contains_seq(name, "chrome"@)
    ||| contains_seq(name, "firefox"@)
    ||| contains_seq(name, "edge"@)
    ||| contains_seq(name, "msedge"@)
    ||| contains_seq(name, "brave"@)
}

/// The call app that a lower-case text names.
pub fn label_call_app(text: &str) -> (r: Option<String>)
    ensures
        opt_view(r) == call_app_label(text@),
{
    if contains(text, "meet.google.com") || contains(text, "meet") {
        Some("Google Meet".to_string())
    } else if contains(text, "slack") {
        Some("Slack".to_string())
    } else if contains(text, "zoom") {
        Some("Zoom".to_string())
    } else if contains(text, "teams") {
        Some("Microsoft Teams".to_string())
    } else if contains(text, "whatsapp") {
        Some("WhatsApp".to_string())
    } else {
        None
    }
}

/// The call app that a process name and a window title name together.
pub fn detect_call_app(process_name: &str, window_title: &str) -> (r: Option<String>)
    ensures
        opt_view(r) == call_app_label(
            spaced(lowercase(process_name@), lowercase(window_title@)),
        ),
{
    let name = to_lowercase(process_name);
    let title = to_lowercase(window_title);
    let combined = join_spaced(name.as_str(), title.as_str());
    label_call_app(combined.as_str())
}

/// Whether a lower-case process name is that of a browser.
pub fn names_browser(lower: &str) -> (r: bool)
    ensures
        r == browser_named(lower@),
{
    contains(lower, "chrome") || contains(lower, "firefox") || contains(lower, "edge") || contains(
        lower,
        "msedge",
    ) || contains(lower, "brave")
}

/// Whether a process is a browser.
pub fn is_browser_process(process_name: &str) -> (r: bool)
    ensures
        r == browser_named(lowercase(process_name@)),
{
    let lower = to_lowercase(process_name);
    names_browser(lower.as_str())
}

/// One of the processes that use the microphone was recognised as `app`.
pub open spec fn mic_used_by_app(mics: Seq<AudioSourceView>, app: Seq<char>) -> bool {
    exists|i: int| 0 <= i < mics.len() && (#[trigger] mics[i]).detected_app == Some(app)
}

/// One of the processes that use the microphone is a browser.
pub open spec fn mic_used_by_browser(mics: Seq<AudioSourceView>) -> bool {
    exists|i: int| 0 <= i < mics.len() && browser_named(lowercase((#[trigger] mics[i]).name))
}

/// Whether the microphone counts as active for a candidate: for a browser,
/// any browser that uses the microphone will do, since tabs cannot be told
/// apart; any other app must use it itself.
pub open spec fn mic_active_for(
    mics: Seq<AudioSourceView>,
    source_name: Seq<char>,
    app: Seq<char>,
) -> bool {
    if browser_named(lowercase(source_name)) {
        mic_used_by_browser(mics)
    } else {
        mic_used_by_app(mics, app)
    }
}

/// The index of the first of `sources` that belongs to process `pid`.
pub open spec fn source_index(sources: Seq<AudioSourceView>, pid: u32, at: int) -> bool {
    &&& 0 <= at < sources.len()
    &&& sources[at].process_id == pid
    &&& forall|j: int| 0 <= j < at ==> (#[trigger] sources[j]).process_id != pid
}

/// Whether one of `sources` belongs to process `pid`.
pub open spec fn has_source(sources: Seq<AudioSourceView>, pid: u32) -> bool {
    exists|i: int| 0 <= i < sources.len() && (#[trigger] sources[i]).process_id == pid
}

/// The first of `sources` that belongs to process `pid`; meaningful where
/// there is one.
pub open spec fn source_of(sources: Seq<AudioSourceView>, pid: u32) -> AudioSourceView {
    sources[choose|at: int| source_index(sources, pid, at)]
}

/// The time from `then` to `now`; zero where `then` is the later.
pub open spec fn since(now: u64, then: u64) -> u64 {
    if now >= then {
        (now - then) as u64
    } else {
        0
    }
}

/// The window title of a running call at this tick: that of its audio
/// source, or the last one known where it plays no audio.
pub open spec fn current_title(call: CallView, audio: Seq<AudioSourceView>) -> Seq<char> {
    if has_source(audio, call.process_id) {
        source_of(audio, call.process_id).window_title
    } else {
        call.window_title
    }
}

/// The snapshot by which a running call is judged at `now`.
pub open spec fn continuation_signal(
    call: CallView,
    mics: Seq<AudioSourceView>,
    audio: Seq<AudioSourceView>,
    net: Map<u32, WebRtcSignalView>,
    now: u64,
) -> SignalView {
    SignalView {
        process_id: call.process_id,
        process_name: call.app,
        window_title: current_title(call, audio),
        has_mic_active: mic_used_by_app(mics, call.app),
        has_audio_output: has_source(audio, call.process_id),
        audio_peak_level: if has_source(audio, call.process_id) {
            ASSUMED_PEAK_LEVEL
        } else {
            0
        },
        has_webrtc_connection: net.contains_key(call.process_id),
        webrtc_started_at: None,
        detected_app: Some(call.app),
        duration: since(now, call.call_started_system_time),
    }
}

/// What becomes of a running call at `now`. While its signals hold, it is
/// refreshed: signals, title and confidence are those of this tick, and it
/// was last seen now. When they do not hold, it is kept unchanged while
/// less than the grace period has passed since it was last seen, and ends
/// otherwise.
pub open spec fn continued(
    call: CallView,
    mics: Seq<AudioSourceView>,
    audio: Seq<AudioSourceView>,
    net: Map<u32, WebRtcSignalView>,
    now: u64,
) -> Option<CallView> {
    let signal = continuation_signal(call, mics, audio, net, now);
    if keeps_call(lowered(signal), true) {
        Some(
            CallView {
                window_title: signal.window_title,
                has_mic: signal.has_mic_active,
                has_audio: signal.has_audio_output,
                has_webrtc: signal.has_webrtc_connection,
                confidence: evaluation(lowered(signal)).confidence,
                last_seen: now,
                ..call
            },
        )
    } else if since(now, call.last_seen) < CALL_END_GRACE_PERIOD {
        Some(call)
    } else {
        None
    }
}

/// The snapshot by which an audio source recognised as `app` is judged
/// as a candidate for a new call.
pub open spec fn candidate_signal(
    source: AudioSourceView,
    app: Seq<char>,
    mics: Seq<AudioSourceView>,
    net: Map<u32, WebRtcSignalView>,
) -> SignalView {
    SignalView {
        process_id: source.process_id,
        process_name: source.name,
        window_title: source.window_title,
        has_mic_active: mic_active_for(mics, source.name, app),
        has_audio_output: true,
        audio_peak_level: ASSUMED_PEAK_LEVEL,
        has_webrtc_connection: net.contains_key(source.process_id),
        webrtc_started_at: None,
        detected_app: Some(app),
        duration: 0,
    }
}

/// Whether an audio source starts a call: it was recognised as a call app
/// and its snapshot is judged a call.
pub open spec fn starts_call(
    source: AudioSourceView,
    mics: Seq<AudioSourceView>,
    net: Map<u32, WebRtcSignalView>,
) -> bool {
    &&& source.detected_app matches Some(app)
    &&& evaluation(lowered(candidate_signal(source, app, mics, net))).is_call
}

/// The call that an audio source starts at `now`, shown as begun at `clock`.
pub open spec fn call_started_by(
    source: AudioSourceView,
    mics: Seq<AudioSourceView>,
    net: Map<u32, WebRtcSignalView>,
    now: u64,
    clock: Seq<char>,
) -> CallView {
    let app = source.detected_app->0;
    let signal = candidate_signal(source, app, mics, net);
    CallView {
        app,
        process_id: source.process_id,
        window_title: source.window_title,
        has_mic: signal.has_mic_active,
        has_audio: true,
        has_webrtc: signal.has_webrtc_connection,
        confidence: evaluation(lowered(signal)).confidence,
        started_at: clock,
        last_seen: now,
        call_started_system_time: now,
    }
}

/// The call that begins at `now`: the one started by the first of the
/// audio sources from `from` on that starts a call.
pub open spec fn first_call_from(
    audio: Seq<AudioSourceView>,
    mics: Seq<AudioSourceView>,
    net: Map<u32, WebRtcSignalView>,
    now: u64,
    clock: Seq<char>,
    from: int,
) -> Option<CallView>
    decreases audio.len() - from,
{
    if 0 <= from < audio.len() {
        if starts_call(audio[from], mics, net) {
            Some(call_started_by(audio[from], mics, net, now, clock))
        } else {
            first_call_from(audio, mics, net, now, clock, from + 1)
        }
    } else {
        None
    }
}

/// The audio sources up to `upto` that do not belong to the call in progress.
pub open spec fn others_upto(
    audio: Seq<AudioSourceView>,
    active: Option<CallView>,
    upto: int,
) -> Seq<AudioSourceView>
    decreases upto,
{
    if upto <= 0 {
        Seq::empty()
    } else {
        let before = others_upto(audio, active, upto - 1);
        if active is Some && audio[upto - 1].process_id == active->0.process_id {
            before
        } else {
            before.push(audio[upto - 1])
        }
    }
}

/// The slot after a tick: a running call is continued, kept or ended; where
/// none runs, the first candidate that is judged a call begins one.
pub open spec fn next_call(
    previous: Option<CallView>,
    mics: Seq<AudioSourceView>,
    audio: Seq<AudioSourceView>,
    net: Map<u32, WebRtcSignalView>,
    now: u64,
    clock: Seq<char>,
) -> Option<CallView> {
    match previous {
        Some(call) => continued(call, mics, audio, net, now),
        None => first_call_from(audio, mics, net, now, clock, 0),
    }
}

/// The state after a tick: the slot, and every audio source of this tick
/// that does not belong to the call in the slot, in the order given.
pub open spec fn next_state(
    previous: Option<CallView>,
    mics: Seq<AudioSourceView>,
    audio: Seq<AudioSourceView>,
    net: Map<u32, WebRtcSignalView>,
    now: u64,
    clock: Seq<char>,
) -> StateView {
    let active = next_call(previous, mics, audio, net, now, clock);
    StateView {
        active_call: active,
        other_audio_sources: others_upto(audio, active, audio.len() as int),
    }
}

/// Whether one of the processes that use the microphone was recognised as `app`.
pub fn mic_has_app(mics: &Vec<AudioSource>, app: &str) -> (r: bool)
    ensures
        r == mic_used_by_app(source_views(mics@), app@),
{
    let mut i: usize = 0;
    while i < mics.len()
        invariant
            i <= mics.len(),
            forall|j: int|
                0 <= j < i ==> (#[trigger] source_views(mics@)[j]).detected_app != Some(app@),
        decreases mics.len() - i,
    {
        if let Some(detected) = &mics[i].detected_app {
            if same_text(detected.as_str(), app) {
                assert(source_views(mics@)[i as int].detected_app == Some(app@));
                return true;
            }
        }
        i += 1;
    }
    false
}

/// Whether one of the processes that use the microphone is a browser.
pub fn mic_has_browser(mics: &Vec<AudioSource>) -> (r: bool)
    ensures
        r == mic_used_by_browser(source_views(mics@)),
{
    let mut i: usize = 0;
    while i < mics.len()
        invariant
            i <= mics.len(),
            forall|j: int|
                0 <= j < i ==> !browser_named(lowercase((#[trigger] source_views(mics@)[j]).name)),
        decreases mics.len() - i,
    {
        if is_browser_process(mics[i].name.as_str()) {
            assert(browser_named(lowercase(source_views(mics@)[i as int].name)));
            return true;
        }
        i += 1;
    }
    false
}

/// The first audio source that belongs to process `pid`.
pub fn find_source(sources: &Vec<AudioSource>, pid: u32) -> (r: Option<usize>)
    ensures
        match r {
            Some(at) => source_index(source_views(sources@), pid, at as int) && source_of(
                source_views(sources@),
                pid,
            ) == sources@[at as int]@ && has_source(source_views(sources@), pid),
            None => !has_source(source_views(sources@), pid),
        },
{
    let ghost views = source_views(sources@);
    let mut i: usize = 0;
    while i < sources.len()
        invariant
            i <= sources.len(),
            views == source_views(sources@),
            forall|j: int| 0 <= j < i ==> (#[trigger] views[j]).process_id != pid,
        decreases sources.len() - i,
    {
        if sources[i].process_id == pid {
            proof {
                assert(views[i as int].process_id == pid);
                assert(source_index(views, pid, i as int));
                let chosen = choose|at: int| source_index(views, pid, at);
                assert(source_index(views, pid, chosen));
                if chosen < i {
                    assert(views[chosen].process_id != pid);
                }
                if i < chosen {
                    assert(views[i as int].process_id != pid);
                }
            }
            return Some(i);
        }
        i += 1;
    }
    None
}

/// What becomes of a running call at `now`, given the processes that use
/// the microphone and play audio at this tick and the network signals.
pub fn continue_call(
    engine: &CorrelationEngine,
    network: &NetworkMonitor,
    call: &CallInfo,
    mic_sources: &Vec<AudioSource>,
    audio_sources: &Vec<AudioSource>,
    now: u64,
) -> (r: Option<CallInfo>)
    ensures
        call_view(r) == continued(
            call@,
            source_views(mic_sources@),
            source_views(audio_sources@),
            network@,
            now,
        ),
{
    let audio_src = find_source(audio_sources, call.process_id);
    let has_mic = mic_has_app(mic_sources, call.app.as_str());
    let has_audio = audio_src.is_some();
    let has_webrtc = network.has_webrtc_activity(call.process_id);
    let audio_peak_level: u32 = if has_audio {
        ASSUMED_PEAK_LEVEL
    } else {
        0
    };
    let window_title = match audio_src {
        Some(at) => audio_sources[at].window_title.clone(),
        None => call.window_title.clone(),
    };
    let call_duration: u64 = if now >= call.call_started_system_time {
        now - call.call_started_system_time
    } else {
        0
    };
    let signal = MultiSignal {
        process_id: call.process_id,
        process_name: call.app.clone(),
        window_title: window_title.clone(),
        has_mic_active: has_mic,
        has_audio_output: has_audio,
        audio_peak_level,
        has_webrtc_connection: has_webrtc,
        webrtc_started_at: None,
        detected_app: Some(call.app.clone()),
        duration: call_duration,
    };
    assert(signal@ == continuation_signal(
        call@,
        source_views(mic_sources@),
        source_views(audio_sources@),
        network@,
        now,
    ));
    if engine.should_maintain_call(&signal, true) {
        let detection = engine.detect_call(&signal);
        Some(
            CallInfo {
                app: call.app.clone(),
                process_id: call.process_id,
                window_title,
                has_mic,
                has_audio,
                has_webrtc,
                confidence: detection.confidence,
                started_at: call.started_at.clone(),
                last_seen: now,
                call_started_system_time: call.call_started_system_time,
            },
        )
    } else {
        let elapsed: u64 = if now >= call.last_seen {
            now - call.last_seen
        } else {
            0
        };
        if elapsed < CALL_END_GRACE_PERIOD {
            Some(call.clone())
        } else {
            None
        }
    }
}

/// The snapshot by which an audio source is judged as a candidate for a
/// new call; none for a source that was not recognised as a call app.
pub fn candidate_snapshot(
    network: &NetworkMonitor,
    mic_sources: &Vec<AudioSource>,
    audio_src: &AudioSource,
) -> (r: Option<MultiSignal>)
    ensures
        match r {
            Some(signal) => audio_src@.detected_app matches Some(app) && signal@
                == candidate_signal(audio_src@, app, source_views(mic_sources@), network@),
            None => audio_src@.detected_app is None,
        },
{
    match &audio_src.detected_app {
        Some(detected) => {
            let is_browser = is_browser_process(audio_src.name.as_str());
            let has_mic = if is_browser {
                mic_has_browser(mic_sources)
            } else {
                mic_has_app(mic_sources, detected.as_str())
            };
            let has_webrtc = network.has_webrtc_activity(audio_src.process_id);
            Some(
                MultiSignal {
                    process_id: audio_src.process_id,
                    process_name: audio_src.name.clone(),
                    window_title: audio_src.window_title.clone(),
                    has_mic_active: has_mic,
                    has_audio_output: true,
                    audio_peak_level: ASSUMED_PEAK_LEVEL,
                    has_webrtc_connection: has_webrtc,
                    webrtc_started_at: None,
                    detected_app: Some(detected.clone()),
                    duration: 0,
                },
            )
        },
        None => None,
    }
}

/// The call that begins at `now`, if one of the audio sources starts one.
/// The sources are judged in the order given, and the first that is
/// judged a call wins.
pub fn detect_new_call(
    engine: &CorrelationEngine,
    network: &NetworkMonitor,
    mic_sources: &Vec<AudioSource>,
    audio_sources: &Vec<AudioSource>,
    now: u64,
    clock: &str,
) -> (r: Option<CallInfo>)
    ensures
        call_view(r) == first_call_from(
            source_views(audio_sources@),
            source_views(mic_sources@),
            network@,
            now,
            clock@,
            0,
        ),
{
    let ghost audio = source_views(audio_sources@);
    let ghost mics = source_views(mic_sources@);
    let mut i: usize = 0;
    while i < audio_sources.len()
        invariant
            i <= audio_sources.len(),
            audio == source_views(audio_sources@),
            mics == source_views(mic_sources@),
            first_call_from(audio, mics, network@, now, clock@, 0) == first_call_from(
                audio,
                mics,
                network@,
                now,
                clock@,
                i as int,
            ),
        decreases audio_sources.len() - i,
    {
        let audio_src = &audio_sources[i];
        assert(audio[i as int] == audio_src@);
        if let Some(signal) = candidate_snapshot(network, mic_sources, audio_src) {
            let detection = engine.detect_call(&signal);
            if detection.is_call {
                return Some(
                    CallInfo {
                        app: match &audio_src.detected_app {
                            Some(detected) => detected.clone(),
                            None => String::new(),
                        },
                        process_id: audio_src.process_id,
                        window_title: audio_src.window_title.clone(),
                        has_mic: signal.has_mic_active,
                        has_audio: true,
                        has_webrtc: signal.has_webrtc_connection,
                        confidence: detection.confidence,
                        started_at: clock.to_string(),
                        last_seen: now,
                        call_started_system_time: now,
                    },
                );
            }
        }
        i += 1;
    }
    None
}

/// The audio sources that do not belong to the call in progress.
pub fn other_sources(audio_sources: &Vec<AudioSource>, active_call: &Option<CallInfo>) -> (r: Vec<
    AudioSource,
>)
    ensures
        source_views(r@) == others_upto(
            source_views(audio_sources@),
            call_view(*active_call),
            audio_sources@.len() as int,
        ),
{
    let ghost audio = source_views(audio_sources@);
    let ghost active = call_view(*active_call);
    let mut out: Vec<AudioSource> = Vec::new();
    let mut i: usize = 0;
    assert(source_views(out@) =~= others_upto(audio, active, 0));
    while i < audio_sources.len()
        invariant
            i <= audio_sources.len(),
            audio == source_views(audio_sources@),
            active == call_view(*active_call),
            source_views(out@) == others_upto(audio, active, i as int),
        decreases audio_sources.len() - i,
    {
        let audio_src = &audio_sources[i];
        let is_active_call = match active_call {
            Some(call) => audio_src.process_id == call.process_id,
            None => false,
        };
        let ghost before = source_views(out@);
        if !is_active_call {
            out.push(audio_src.clone());
            assert(source_views(out@) =~= before.push(audio[i as int]));
        }
        i += 1;
    }
    out
}

/// One tick of the controller. From the state of the tick before, the
/// processes that use the microphone and play audio at this tick, and the
/// network signals as they stand after this tick's poll, gives the new
/// state. `clock` is the wall-clock time shown for a call that begins now.
pub fn advance(
    engine: &CorrelationEngine,
    network: &NetworkMonitor,
    previous: &MonitorState,
    mic_sources: &Vec<AudioSource>,
    audio_sources: &Vec<AudioSource>,
    now: u64,
    clock: &str,
) -> (r: MonitorState)
    ensures
        r@ == next_state(
            previous@.active_call,
            source_views(mic_sources@),
            source_views(audio_sources@),
            network@,
            now,
            clock@,
        ),
{
    let active_call = match &previous.active_call {
        Some(call) => continue_call(engine, network, call, mic_sources, audio_sources, now),
        None => detect_new_call(engine, network, mic_sources, audio_sources, now, clock),
    };
    let other_audio_sources = other_sources(audio_sources, &active_call);
    MonitorState { active_call, other_audio_sources }
}

/// The state before the first tick: no call, no audio.
pub fn idle() -> (r: MonitorState)
    ensures
        r@.active_call is None,
        r@.other_audio_sources == Seq::<AudioSourceView>::empty(),
{
    let r = MonitorState { active_call: None, other_audio_sources: Vec::new() };
    assert(r@.other_audio_sources =~= Seq::<AudioSourceView>::empty());
    r
}

/// The source that stands for an app that uses the microphone: its
/// process and window are not known.
pub open spec fn microphone_source(name: Seq<char>) -> AudioSourceView {
    AudioSourceView {
        name,
        process_id: 0,
        window_title: Seq::empty(),
        detected_app: call_app_label(spaced(lowercase(name), lowercase(Seq::empty()))),
    }
}

/// The sources that stand for the apps that use the microphone, in order.
pub fn microphone_sources(apps_using_mic: &Vec<String>) -> (r: Vec<AudioSource>)
    ensures
        r@.len() == apps_using_mic@.len(),
        forall|i: int|
            0 <= i < r@.len() ==> (#[trigger] r@[i])@ == microphone_source(apps_using_mic@[i]@),
{
    let mut out: Vec<AudioSource> = Vec::new();
    let mut i: usize = 0;
    while i < apps_using_mic.len()
        invariant
            i <= apps_using_mic.len(),
            out@.len() == i,
            forall|j: int|
                0 <= j < i ==> (#[trigger] out@[j])@ == microphone_source(apps_using_mic@[j]@),
        decreases apps_using_mic.len() - i,
    {
        let app_name = &apps_using_mic[i];
        proof {
            reveal_strlit("");
            assert(""@ =~= Seq::<char>::empty());
        }
        let source = AudioSource {
            name: app_name.clone(),
            process_id: 0,
            window_title: String::new(),
            detected_app: detect_call_app(app_name.as_str(), ""),
        };
        out.push(source);
        i += 1;
    }
    out
}

/// Whether an application counts as playing audio: its session is
/// playing, or its level is above the negligible one.
pub open spec fn is_playing_audio(app: AudioAppView) -> bool {
    app.is_playing || app.peak_level > NEGLIGIBLE_PEAK
}

/// The audio source that stands for an application that plays audio.
pub open spec fn playing_source(app: AudioAppView) -> AudioSourceView {
    AudioSourceView {
        name: app.name,
        process_id: app.process_id,
        window_title: app.window_title,
        detected_app: call_app_label(spaced(lowercase(app.name), lowercase(app.window_title))),
    }
}

/// The audio sources for the first `upto` of `apps`: one for each that
/// counts as playing audio, in order.
pub open spec fn playing_upto(apps: Seq<AudioAppView>, upto: int) -> Seq<AudioSourceView>
    decreases upto,
{
    if upto <= 0 {
        Seq::empty()
    } else {
        let before = playing_upto(apps, upto - 1);
        if is_playing_audio(apps[upto - 1]) {
            before.push(playing_source(apps[upto - 1]))
        } else {
            before
        }
    }
}

/// The audio sources of a tick: one for each application that counts as
/// playing audio, in the order reported.
pub fn playing_sources(active_apps: &Vec<AudioAppInfo>) -> (r: Vec<AudioSource>)
    ensures
        source_views(r@) == playing_upto(app_views(active_apps@), active_apps@.len() as int),
{
    let ghost apps = app_views(active_apps@);
    let mut out: Vec<AudioSource> = Vec::new();
    let mut i: usize = 0;
    assert(source_views(out@) =~= playing_upto(apps, 0));
    while i < active_apps.len()
        invariant
            i <= active_apps.len(),
            apps == app_views(active_apps@),
            source_views(out@) == playing_upto(apps, i as int),
        decreases active_apps.len() - i,
    {
        let app = &active_apps[i];
        assert(apps[i as int] == app@);
        let ghost before = source_views(out@);
        if app.is_playing || app.peak_level > NEGLIGIBLE_PEAK {
            let source = AudioSource {
                name: app.name.clone(),
                process_id: app.process_id,
                window_title: app.window_title.clone(),
                detected_app: detect_call_app(app.name.as_str(), app.window_title.as_str()),
            };
            assert(source@ == playing_source(app@));
            out.push(source);
            assert(source_views(out@) =~= before.push(playing_source(app@)));
        }
        i += 1;
    }
    out
}

/// What a tick changed about the call in progress.
#[derive(Debug)]
pub enum CallEvent {
    /// A call began on `app`.
    Started { app: String },
    /// The call on `app` that had begun at `started_at` ended.
    Ended { app: String, started_at: String },
}

/// What a `CallEvent` holds, with its texts as character sequences.
pub enum CallEventView {
    Started { app: Seq<char> },
    Ended { app: Seq<char>, started_at: Seq<char> },
}

impl View for CallEvent {
    type V = CallEventView;

    open spec fn view(&self) -> CallEventView {
        match self {
            CallEvent::Started { app } => CallEventView::Started { app: app@ },
            CallEvent::Ended { app, started_at } => CallEventView::Ended {
                app: app@,
                started_at: started_at@,
            },
        }
    }
}

/// The event between two states: a call began where there was none, or
/// ended where there is none now; a call that goes on is no event.
pub open spec fn event_between(previous: Option<CallView>, current: Option<CallView>) -> Option<
    CallEventView,
> {
    match (previous, current) {
        (None, Some(call)) => Some(CallEventView::Started { app: call.app }),
        (Some(call), None) => Some(
            CallEventView::Ended { app: call.app, started_at: call.started_at },
        ),
        _ => None,
    }
}

/// The view of an optional event.
pub open spec fn event_view(o: Option<CallEvent>) -> Option<CallEventView> {
    match o {
        Some(e) => Some(e@),
        None => None,
    }
}

/// What to report of the step from one state to the next.
pub fn call_event(previous: &MonitorState, current: &MonitorState) -> (r: Option<CallEvent>)
    ensures
        event_view(r) == event_between(previous@.active_call, current@.active_call),
{
    match (&previous.active_call, &current.active_call) {
        (None, Some(call)) => Some(CallEvent::Started { app: call.app.clone() }),
        (Some(prev_call), None) => Some(
            CallEvent::Ended {
                app: prev_call.app.clone(),
                started_at: prev_call.started_at.clone(),
            },
        ),
        _ => None,
    }
}

/// A running call whose signals do not hold is kept unchanged while less
/// than the grace period has passed since it was last seen, and ends as
/// soon as the grace period has passed.
pub proof fn law_grace_period(
    call: CallView,
    mics: Seq<AudioSourceView>,
    audio: Seq<AudioSourceView>,
    net: Map<u32, WebRtcSignalView>,
    now: u64,
)
    requires
        !keeps_call(lowered(continuation_signal(call, mics, audio, net, now)), true),
    ensures
        since(now, call.last_seen) < CALL_END_GRACE_PERIOD ==> continued(
            call,
            mics,
            audio,
            net,
            now,
        ) == Some(call),
        since(now, call.last_seen) >= CALL_END_GRACE_PERIOD ==> continued(
            call,
            mics,
            audio,
            net,
            now,
        ) is None,
{
}

/// A running call whose signals hold stays in the slot as the same call,
/// last seen now.
pub proof fn law_maintained_call_is_refreshed(
    call: CallView,
    mics: Seq<AudioSourceView>,
    audio: Seq<AudioSourceView>,
    net: Map<u32, WebRtcSignalView>,
    now: u64,
)
    requires
        keeps_call(lowered(continuation_signal(call, mics, audio, net, now)), true),
    ensures
        continued(call, mics, audio, net, now) matches Some(next) && next.last_seen == now
            && next.app == call.app && next.process_id == call.process_id && next.started_at
            == call.started_at && next.call_started_system_time == call.call_started_system_time,
{
}

/// No audio source listed beside the call belongs to the call's process,
/// and every other audio source of the tick is listed.
pub proof fn law_others_exclude_the_call(
    audio: Seq<AudioSourceView>,
    active: Option<CallView>,
    upto: int,
)
    requires
        0 <= upto <= audio.len(),
    ensures
        forall|i: int|
            0 <= i < others_upto(audio, active, upto).len() ==> !(active matches Some(call) && (
            #[trigger] others_upto(audio, active, upto)[i]).process_id == call.process_id),
        forall|j: int|
            0 <= j < upto && !(active matches Some(call) && audio[j].process_id == call.process_id)
                ==> others_upto(audio, active, upto).contains(#[trigger] audio[j]),
    decreases upto,
{
    if upto > 0 {
        law_others_exclude_the_call(audio, active, upto - 1);
        let before = others_upto(audio, active, upto - 1);
        let now_listed = others_upto(audio, active, upto);
        assert forall|j: int|
            0 <= j < upto && !(active matches Some(call) && audio[j].process_id
                == call.process_id) implies now_listed.contains(#[trigger] audio[j]) by {
            if j < upto - 1 {
                assert(before.contains(audio[j]));
                let k = choose|k: int| 0 <= k < before.len() && before[k] == audio[j];
                assert(now_listed[k] == audio[j]);
            } else {
                assert(now_listed[now_listed.len() - 1] == audio[j]);
            }
        }
    }
}

} // verus!
