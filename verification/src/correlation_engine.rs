//! The correlation engine: from one snapshot of a process's signals to a
//! verdict on whether a call is in progress, and the hysteresis predicate that
//! keeps a call that is already running.
//!
//! Confidence and audio levels are fixed-point numbers in millionths: a
//! confidence of `450_000` is 0.45. Durations are in nanoseconds.
//!
//! Markers are matched against lower-case text. `evaluation` and
//! `keeps_call` say what is decided of a snapshot whose texts are lower
//! case already; `detect_call` and `should_maintain_call` fold the texts
//! of their snapshot first, so that they decide `evaluation(lowered(..))`
//! and `keeps_call(lowered(..), ..)`. The laws at the end of this module
//! hold of every snapshot, folded or not.

use vstd::prelude::*;
use crate::text::{
    contains_any, contains_any_marker, join_spaced, lowercase, spaced, to_lowercase, views,
};

verus! {

/// The fixed-point value that stands for 1.0.
pub const ONE: u32 = 1_000_000;

/// Added when audio output is active above the negligible level.
pub const WEIGHT_AUDIO_OUTPUT: u32 = 400_000;

/// Added when the process has a real-time-media network signal.
pub const WEIGHT_NETWORK: u32 = 350_000;

/// Added when the microphone is active.
pub const WEIGHT_MICROPHONE: u32 = 150_000;

/// Added when the window title itself speaks of a meeting.
pub const WEIGHT_TITLE: u32 = 100_000;

/// The least confidence at which a snapshot counts as a call.
pub const CALL_THRESHOLD: u32 = 450_000;

/// An audio level at or below this is taken for silence.
pub const NEGLIGIBLE_PEAK: u32 = 1_000;

/// The confidence reported with a voice note.
pub const VOICE_NOTE_CONFIDENCE: u32 = 300_000;

/// The numerator of the factor applied to short-lived events.
pub const SHORT_PENALTY_NUM: u32 = 7;

/// The denominator of the factor applied to short-lived events.
pub const SHORT_PENALTY_DEN: u32 = 10;

/// Events longer than this and shorter than `PENALTY_UNTIL` are penalised.
pub const PENALTY_AFTER: u64 = 1_000_000_000;

/// Events shorter than this and longer than `PENALTY_AFTER` are penalised.
pub const PENALTY_UNTIL: u64 = 5_000_000_000;

/// A microphone-only session on a messaging app shorter than this is a voice note.
pub const VOICE_NOTE_LIMIT: u64 = 120_000_000_000;

/// All signals collected for one process at one tick.
#[derive(Debug)]
pub struct MultiSignal {
    pub process_id: u32,
    pub process_name: String,
    pub window_title: String,
    pub has_mic_active: bool,
    pub has_audio_output: bool,
    /// Output level in millionths of full scale.
    pub audio_peak_level: u32,
    pub has_webrtc_connection: bool,
    /// Nanoseconds since the epoch at which the network signal was first seen.
    pub webrtc_started_at: Option<u64>,
    pub detected_app: Option<String>,
    /// Nanoseconds since the call began; zero for a candidate seen for the first time.
    pub duration: u64,
}

/// What a `MultiSignal` holds, with its texts as character sequences.
pub struct SignalView {
    pub process_id: u32,
    pub process_name: Seq<char>,
    pub window_title: Seq<char>,
    pub has_mic_active: bool,
    pub has_audio_output: bool,
    pub audio_peak_level: u32,
    pub has_webrtc_connection: bool,
    pub webrtc_started_at: Option<u64>,
    pub detected_app: Option<Seq<char>>,
    pub duration: u64,
}

/// The view of an optional string.
pub open spec fn opt_view(o: Option<String>) -> Option<Seq<char>> {
    match o {
        Some(s) => Some(s@),
        None => None,
    }
}

impl View for MultiSignal {
    type V = SignalView;

    open spec fn view(&self) -> SignalView {
        SignalView {
            process_id: self.process_id,
            process_name: self.process_name@,
            window_title: self.window_title@,
            has_mic_active: self.has_mic_active,
            has_audio_output: self.has_audio_output,
            audio_peak_level: self.audio_peak_level,
            has_webrtc_connection: self.has_webrtc_connection,
            webrtc_started_at: self.webrtc_started_at,
            detected_app: opt_view(self.detected_app),
            duration: self.duration,
        }
    }
}

impl Clone for MultiSignal {
    fn clone(&self) -> (r: Self)
        ensures
            r@ == self@,
    {
        MultiSignal {
            process_id: self.process_id,
            process_name: self.process_name.clone(),
            window_title: self.window_title.clone(),
            has_mic_active: self.has_mic_active,
            has_audio_output: self.has_audio_output,
            audio_peak_level: self.audio_peak_level,
            has_webrtc_connection: self.has_webrtc_connection,
            webrtc_started_at: self.webrtc_started_at,
            detected_app: match &self.detected_app {
                Some(app) => Some(app.clone()),
                None => None,
            },
            duration: self.duration,
        }
    }
}

/// What kind of audio event a snapshot shows.
#[derive(Debug, Clone, Copy, PartialEq, Eq, Structural)]
pub enum SignalType {
    /// A two-way call.
    MeetingCall,
    /// A one-way voice message being recorded.
    VoiceNote,
    /// A media site playing.
    MediaPlayback,
    Unknown,
}

/// The verdict on one snapshot.
#[derive(Debug)]
pub struct DetectionResult {
    pub is_call: bool,
    /// In millionths.
    pub confidence: u32,
    pub signal_type: SignalType,
    pub reasons: Vec<String>,
}

/// What a `DetectionResult` holds, with its reasons as character sequences.
pub struct DetectionView {
    pub is_call: bool,
    pub confidence: u32,
    pub signal_type: SignalType,
    pub reasons: Seq<Seq<char>>,
}

impl View for DetectionResult {
    type V = DetectionView;

    open spec fn view(&self) -> DetectionView {
        DetectionView {
            is_call: self.is_call,
            confidence: self.confidence,
            signal_type: self.signal_type,
            reasons: views(self.reasons@),
        }
    }
}

impl Clone for DetectionResult {
    fn clone(&self) -> (r: Self)
        ensures
            r@ == self@,
    {
        let mut reasons: Vec<String> = Vec::new();
        let mut i: usize = 0;
        while i < self.reasons.len()
            invariant
                i <= self.reasons.len(),
                reasons@.len() == i,
                forall|j: int| 0 <= j < i ==> reasons@[j]@ == self.reasons@[j]@,
            decreases self.reasons.len() - i,
        {
            reasons.push(self.reasons[i].clone());
            i += 1;
        }
        assert(views(reasons@) =~= views(self.reasons@));
        DetectionResult {
            is_call: self.is_call,
            confidence: self.confidence,
            signal_type: self.signal_type,
            reasons,
        }
    }
}

/// The media sites whose name in a window title marks playback, not a call.
pub open spec fn media_site_markers() -> Seq<Seq<char>> {
    seq![
        "youtube"@,
        "netflix"@,
        "spotify"@,
        "twitch"@,
        "soundcloud"@,
        "apple music"@,
        "prime video"@,
    ]
}

/// The names by which a call app is recognised.
pub open spec fn call_app_markers() -> Seq<Seq<char>> {
    seq![
        "meet"@,
        "google meet"@,
        "slack"@,
        "zoom"@,
        "teams"@,
        "microsoft teams"@,
        "whatsapp"@,
    ]
}

/// The words in a window title that say a meeting is going on.
pub open spec fn meeting_markers() -> Seq<Seq<char>> {
    seq![
        "meeting"@,
        "call with"@,
        "video call"@,
        "zoom meeting"@,
        "teams meeting"@,
        " meet "@,
        "conference"@,
    ]
}

/// The messaging apps on which a short microphone-only session is a voice note.
pub open spec fn messaging_markers() -> Seq<Seq<char>> {
    seq!["whatsapp"@, "slack"@]
}

/// The text in which call-app markers are looked for: process name, window
/// title and app label, separated by single spaces; an absent label is empty.
pub open spec fn identity_text(
    process_name: Seq<char>,
    window_title: Seq<char>,
    detected_app: Option<Seq<char>>,
) -> Seq<char> {
    spaced(
        spaced(process_name, window_title),
        match detected_app {
            Some(a) => a,
            None => Seq::empty(),
        },
    )
}

/// App-identity gate, on lower-case text.
pub open spec fn call_app_named(
    process_name: Seq<char>,
    window_title: Seq<char>,
    detected_app: Option<Seq<char>>,
) -> bool {
    contains_any(identity_text(process_name, window_title, detected_app), call_app_markers())
}

/// Media-site gate, on a lower-case window title.
pub open spec fn media_site_named(window_title: Seq<char>) -> bool {
    contains_any(window_title, media_site_markers())
}

/// Whether a lower-case window title speaks of a meeting.
pub open spec fn meeting_named(window_title: Seq<char>) -> bool {
    contains_any(window_title, meeting_markers())
}

/// Voice-note gate, on a snapshot with a lower-case app label: the microphone
/// records while nothing is played and no peer is connected; or a short
/// microphone session without a peer on a messaging app.
pub open spec fn voice_note_pattern(s: SignalView) -> bool {
    ||| s.has_mic_active && !s.has_audio_output && !s.has_webrtc_connection
    ||| {
        &&& s.duration < VOICE_NOTE_LIMIT
        &&& s.has_mic_active
        &&& !s.has_webrtc_connection
        &&& s.detected_app matches Some(app)
        &&& contains_any(app, messaging_markers())
    }
}

/// Audio output counts towards the score only above the negligible level.
pub open spec fn audio_counts(s: SignalView) -> bool {
    s.has_audio_output && s.audio_peak_level > NEGLIGIBLE_PEAK
}

/// The short-duration penalty applies strictly between one and five seconds.
pub open spec fn is_penalized(duration: u64) -> bool {
    PENALTY_AFTER < duration < PENALTY_UNTIL
}

/// The sum of the weights of the signals that are present.
pub open spec fn base_score(audio: bool, network: bool, mic: bool, title: bool) -> int {
    (if audio { WEIGHT_AUDIO_OUTPUT as int } else { 0 })
        + (if network { WEIGHT_NETWORK as int } else { 0 })
        + (if mic { WEIGHT_MICROPHONE as int } else { 0 })
        + (if title { WEIGHT_TITLE as int } else { 0 })
}

/// The confidence of the scoring stage: the base score, times 0.7 where the
/// short-duration penalty applies.
pub open spec fn score(audio: bool, network: bool, mic: bool, title: bool, penalized: bool) -> int {
    if penalized {
        base_score(audio, network, mic, title) * (SHORT_PENALTY_NUM as int) / (
        SHORT_PENALTY_DEN as int)
    } else {
        base_score(audio, network, mic, title)
    }
}

/// The final decision: a call at or above the threshold.
pub open spec fn reaches_threshold(confidence: int) -> bool {
    confidence >= CALL_THRESHOLD
}

/// The confidence that the scoring stage gives a snapshot with lower-case text.
pub open spec fn scored_confidence(s: SignalView) -> int {
    score(
        audio_counts(s),
        s.has_webrtc_connection,
        s.has_mic_active,
        meeting_named(s.window_title),
        is_penalized(s.duration),
    )
}

/// The reasons that the scoring stage records, in order.
pub open spec fn scored_reasons(s: SignalView) -> Seq<Seq<char>> {
    (if audio_counts(s) {
        seq!["Audio output active"@]
    } else {
        Seq::empty()
    }) + (if s.has_webrtc_connection {
        seq!["WebRTC connection detected"@]
    } else {
        Seq::empty()
    }) + (if s.has_mic_active {
        seq!["Microphone active"@]
    } else {
        seq!["Microphone muted/off"@]
    }) + (if meeting_named(s.window_title) {
        seq!["Window title confirms meeting"@]
    } else {
        Seq::empty()
    }) + (if is_penalized(s.duration) {
        seq!["Short duration - reduced confidence"@]
    } else {
        Seq::empty()
    })
}

/// No gate fires on the snapshot: it names a call app, no media site, and is
/// no voice note.
pub open spec fn reaches_scoring(s: SignalView) -> bool {
    &&& call_app_named(s.process_name, s.window_title, s.detected_app)
    &&& !media_site_named(s.window_title)
    &&& !voice_note_pattern(s)
}

/// The verdict on a snapshot whose texts are lower case: three gates in order,
/// then the weighted score against the threshold.
pub open spec fn evaluation(s: SignalView) -> DetectionView {
    if !call_app_named(s.process_name, s.window_title, s.detected_app) {
        DetectionView {
            is_call: false,
            confidence: 0,
            signal_type: SignalType::Unknown,
            reasons: seq!["Not a known call app"@],
        }
    } else if media_site_named(s.window_title) {
        DetectionView {
            is_call: false,
            confidence: 0,
            signal_type: SignalType::MediaPlayback,
            reasons: seq!["Media playback site detected"@],
        }
    } else if voice_note_pattern(s) {
        DetectionView {
            is_call: false,
            confidence: VOICE_NOTE_CONFIDENCE,
            signal_type: SignalType::VoiceNote,
            reasons: seq!["Voice note pattern detected"@],
        }
    } else {
        DetectionView {
            is_call: reaches_threshold(scored_confidence(s)),
            confidence: scored_confidence(s) as u32,
            signal_type: if reaches_threshold(scored_confidence(s)) {
                SignalType::MeetingCall
            } else {
                SignalType::Unknown
            },
            reasons: scored_reasons(s),
        }
    }
}

/// Hysteresis for a call that is already running, on a snapshot with
/// lower-case text: the call is kept while the app is still a call app and
/// audio output or the microphone is active.
pub open spec fn keeps_call(s: SignalView, was_previously_call: bool) -> bool {
    &&& was_previously_call
    &&& call_app_named(s.process_name, s.window_title, s.detected_app)
    &&& (s.has_audio_output || s.has_mic_active)
}

/// The lower-case form of an optional text.
pub open spec fn lowercase_opt(o: Option<Seq<char>>) -> Option<Seq<char>> {
    match o {
        Some(a) => Some(lowercase(a)),
        None => None,
    }
}

/// The snapshot with process name, window title and app label in lower case.
pub open spec fn lowered(s: SignalView) -> SignalView {
    SignalView {
        process_name: lowercase(s.process_name),
        window_title: lowercase(s.window_title),
        detected_app: lowercase_opt(s.detected_app),
        ..s
    }
}

/// `text` as an owned string.
fn owned(text: &str) -> (r: String)
    ensures
        r@ == text@,
{
    text.to_string()
}

/// The optional string behind a reference, as an optional slice.
fn as_opt_str(o: &Option<String>) -> (r: Option<&str>)
    ensures
        match r {
            Some(s) => opt_view(*o) == Some(s@),
            None => *o is None,
        },
{
    match o {
        Some(s) => Some(s.as_str()),
        None => None,
    }
}

impl MultiSignal {
    /// The same snapshot with its three texts folded to lower case.
    pub fn to_lowered(&self) -> (r: MultiSignal)
        ensures
            r@ == lowered(self@),
    {
        let detected_app = match &self.detected_app {
            Some(a) => Some(to_lowercase(a.as_str())),
            None => None,
        };
        MultiSignal {
            process_id: self.process_id,
            process_name: to_lowercase(self.process_name.as_str()),
            window_title: to_lowercase(self.window_title.as_str()),
            has_mic_active: self.has_mic_active,
            has_audio_output: self.has_audio_output,
            audio_peak_level: self.audio_peak_level,
            has_webrtc_connection: self.has_webrtc_connection,
            webrtc_started_at: self.webrtc_started_at,
            detected_app,
            duration: self.duration,
        }
    }
}

/// The weighted sum for the signals present, reduced by the short-duration
/// penalty where it applies.
pub fn weigh(audio: bool, network: bool, mic: bool, title: bool, penalized: bool) -> (r: u32)
    ensures
        r == score(audio, network, mic, title, penalized),
        r <= ONE,
{
    let mut confidence: u32 = 0;
    if audio {
        confidence += WEIGHT_AUDIO_OUTPUT;
    }
    if network {
        confidence += WEIGHT_NETWORK;
    }
    if mic {
        confidence += WEIGHT_MICROPHONE;
    }
    if title {
        confidence += WEIGHT_TITLE;
    }
    if penalized {
        confidence = confidence * SHORT_PENALTY_NUM / SHORT_PENALTY_DEN;
    }
    confidence
}

/// Whether a confidence is enough for a call.
pub fn is_call_confidence(confidence: u32) -> (r: bool)
    ensures
        r == reaches_threshold(confidence as int),
{
    confidence >= CALL_THRESHOLD
}

/// Fuses the signals of one process into a verdict.
pub struct CorrelationEngine {
    media_sites: Vec<String>,
    call_apps: Vec<String>,
}

impl CorrelationEngine {
    #[verifier::type_invariant]
    spec fn holds_markers(&self) -> bool {
        &&& views(self.media_sites@) == media_site_markers()
        &&& views(self.call_apps@) == call_app_markers()
    }

    /// The media-site markers that this engine filters by.
    pub closed spec fn media_sites(&self) -> Seq<Seq<char>> {
        views(self.media_sites@)
    }

    /// The call-app markers that this engine recognises.
    pub closed spec fn call_apps(&self) -> Seq<Seq<char>> {
        views(self.call_apps@)
    }

    /// An engine with the fixed lists of media sites and call apps.
    pub fn new() -> (r: Self)
        ensures
            r.media_sites() == media_site_markers(),
            r.call_apps() == call_app_markers(),
    {
        let mut media_sites: Vec<String> = Vec::new();
        media_sites.push(owned("youtube"));
        media_sites.push(owned("netflix"));
        media_sites.push(owned("spotify"));
        media_sites.push(owned("twitch"));
        media_sites.push(owned("soundcloud"));
        media_sites.push(owned("apple music"));
        media_sites.push(owned("prime video"));
        let mut call_apps: Vec<String> = Vec::new();
        call_apps.push(owned("meet"));
        call_apps.push(owned("google meet"));
        call_apps.push(owned("slack"));
        call_apps.push(owned("zoom"));
        call_apps.push(owned("teams"));
        call_apps.push(owned("microsoft teams"));
        call_apps.push(owned("whatsapp"));
        assert(views(media_sites@) =~= media_site_markers());
        assert(views(call_apps@) =~= call_app_markers());
        CorrelationEngine { media_sites, call_apps }
    }

    /// App-identity gate on text that is already lower case.
    pub fn finds_call_app(
        &self,
        process_name: &str,
        window_title: &str,
        detected_app: Option<&str>,
    ) -> (r: bool)
        ensures
            r == call_app_named(
                process_name@,
                window_title@,
                match detected_app {
                    Some(a) => Some(a@),
                    None => None,
                },
            ),
    {
        proof {
            use_type_invariant(self);
        }
        let head = join_spaced(process_name, window_title);
        let combined = match detected_app {
            Some(a) => join_spaced(head.as_str(), a),
            None => {
                proof {
                    reveal_strlit("");
                    assert(""@ =~= Seq::<char>::empty());
                }
                join_spaced(head.as_str(), "")
            },
        };
        contains_any_marker(combined.as_str(), &self.call_apps)
    }

    /// Media-site gate on a window title that is already lower case.
    pub fn finds_media_site(&self, window_title: &str) -> (r: bool)
        ensures
            r == media_site_named(window_title@),
    {
        proof {
            use_type_invariant(self);
        }
        contains_any_marker(window_title, &self.media_sites)
    }

    /// Whether a window title that is already lower case speaks of a meeting.
    pub fn finds_meeting(&self, window_title: &str) -> (r: bool)
        ensures
            r == meeting_named(window_title@),
    {
        let mut keywords: Vec<String> = Vec::new();
        keywords.push(owned("meeting"));
        keywords.push(owned("call with"));
        keywords.push(owned("video call"));
        keywords.push(owned("zoom meeting"));
        keywords.push(owned("teams meeting"));
        keywords.push(owned(" meet "));
        keywords.push(owned("conference"));
        assert(views(keywords@) =~= meeting_markers());
        contains_any_marker(window_title, &keywords)
    }

    /// Voice-note gate on a snapshot whose app label is already lower case.
    pub fn fits_voice_note(&self, signal: &MultiSignal) -> (r: bool)
        ensures
            r == voice_note_pattern(signal@),
    {
        let has_outgoing_only = signal.has_mic_active && !signal.has_audio_output;
        let no_webrtc = !signal.has_webrtc_connection;
        let is_short = signal.duration < VOICE_NOTE_LIMIT;
        if has_outgoing_only && no_webrtc {
            return true;
        }
        if is_short && signal.has_mic_active && !signal.has_webrtc_connection {
            if let Some(app) = &signal.detected_app {
                let mut apps: Vec<String> = Vec::new();
                apps.push(owned("whatsapp"));
                apps.push(owned("slack"));
                assert(views(apps@) =~= messaging_markers());
                return contains_any_marker(app.as_str(), &apps);
            }
        }
        false
    }

    /// The verdict on a snapshot whose texts are already lower case.
    pub fn evaluate(&self, signal: &MultiSignal) -> (r: DetectionResult)
        ensures
            r@ == evaluation(signal@),
    {
        let app = as_opt_str(&signal.detected_app);
        if !self.finds_call_app(signal.process_name.as_str(), signal.window_title.as_str(), app) {
            let mut reasons: Vec<String> = Vec::new();
            reasons.push(owned("Not a known call app"));
            assert(views(reasons@) =~= seq!["Not a known call app"@]);
            return DetectionResult {
                is_call: false,
                confidence: 0,
                signal_type: SignalType::Unknown,
                reasons,
            };
        }
        if self.finds_media_site(signal.window_title.as_str()) {
            let mut reasons: Vec<String> = Vec::new();
            reasons.push(owned("Media playback site detected"));
            assert(views(reasons@) =~= seq!["Media playback site detected"@]);
            return DetectionResult {
                is_call: false,
                confidence: 0,
                signal_type: SignalType::MediaPlayback,
                reasons,
            };
        }
        if self.fits_voice_note(signal) {
            let mut reasons: Vec<String> = Vec::new();
            reasons.push(owned("Voice note pattern detected"));
            assert(views(reasons@) =~= seq!["Voice note pattern detected"@]);
            return DetectionResult {
                is_call: false,
                confidence: VOICE_NOTE_CONFIDENCE,
                signal_type: SignalType::VoiceNote,
                reasons,
            };
        }
        let audio = signal.has_audio_output && signal.audio_peak_level > NEGLIGIBLE_PEAK;
        let title = self.finds_meeting(signal.window_title.as_str());
        let penalized = signal.duration > PENALTY_AFTER && signal.duration < PENALTY_UNTIL;
        let mut reasons: Vec<String> = Vec::new();
        if audio {
            reasons.push(owned("Audio output active"));
        }
        if signal.has_webrtc_connection {
            reasons.push(owned("WebRTC connection detected"));
        }
        if signal.has_mic_active {
            reasons.push(owned("Microphone active"));
        } else {
            reasons.push(owned("Microphone muted/off"));
        }
        if title {
            reasons.push(owned("Window title confirms meeting"));
        }
        if penalized {
            reasons.push(owned("Short duration - reduced confidence"));
        }
        assert(views(reasons@) =~= scored_reasons(signal@));
        let confidence = weigh(
            audio,
            signal.has_webrtc_connection,
            signal.has_mic_active,
            title,
            penalized,
        );
        let is_call = is_call_confidence(confidence);
        DetectionResult {
            is_call,
            confidence,
            signal_type: if is_call {
                SignalType::MeetingCall
            } else {
                SignalType::Unknown
            },
            reasons,
        }
    }

    /// Whether a call that was running should be kept, on a snapshot whose
    /// texts are already lower case.
    pub fn maintains(&self, signal: &MultiSignal, was_previously_call: bool) -> (r: bool)
        ensures
            r == keeps_call(signal@, was_previously_call),
    {
        if !was_previously_call {
            return false;
        }
        let app = as_opt_str(&signal.detected_app);
        if !self.finds_call_app(signal.process_name.as_str(), signal.window_title.as_str(), app) {
            return false;
        }
        if signal.has_webrtc_connection && (signal.has_audio_output || signal.has_mic_active) {
            return true;
        }
        if signal.has_audio_output {
            return true;
        }
        if signal.has_mic_active {
            return true;
        }
        false
    }

    /// Decides from one snapshot whether a call is in progress. The texts of
    /// the snapshot are folded to lower case, then the gates and the score
    /// are applied as `evaluation` states them.
    pub fn detect_call(&self, signal: &MultiSignal) -> (r: DetectionResult)
        ensures
            r@ == evaluation(lowered(signal@)),
    {
        let folded = signal.to_lowered();
        self.evaluate(&folded)
    }

    /// Whether a snapshot shows a voice note being recorded.
    pub fn is_voice_note(&self, signal: &MultiSignal) -> (r: bool)
        ensures
            r == voice_note_pattern(lowered(signal@)),
    {
        let folded = signal.to_lowered();
        self.fits_voice_note(&folded)
    }

    /// Whether a window title names a media site.
    pub fn is_media_site(&self, window_title: &str) -> (r: bool)
        ensures
            r == media_site_named(lowercase(window_title@)),
    {
        let lower_title = to_lowercase(window_title);
        self.finds_media_site(lower_title.as_str())
    }

    /// Whether process name, window title and app label together name a call app.
    pub fn is_call_app(
        &self,
        process_name: &str,
        window_title: &str,
        detected_app: &Option<String>,
    ) -> (r: bool)
        ensures
            r == call_app_named(
                lowercase(process_name@),
                lowercase(window_title@),
                lowercase_opt(opt_view(*detected_app)),
            ),
    {
        let name = to_lowercase(process_name);
        let title = to_lowercase(window_title);
        match detected_app {
            Some(a) => {
                let app = to_lowercase(a.as_str());
                self.finds_call_app(name.as_str(), title.as_str(), Some(app.as_str()))
            },
            None => self.finds_call_app(name.as_str(), title.as_str(), None),
        }
    }

    /// Whether a window title says that a meeting is going on.
    pub fn window_title_confirms_call(&self, window_title: &str) -> (r: bool)
        ensures
            r == meeting_named(lowercase(window_title@)),
    {
        let lower_title = to_lowercase(window_title);
        self.finds_meeting(lower_title.as_str())
    }

    /// Whether a call that was running should be kept alive on this snapshot.
    /// A `false` leaves the end of the call to the caller's grace period.
    pub fn should_maintain_call(&self, signal: &MultiSignal, was_previously_call: bool) -> (r:
        bool)
        ensures
            r == keeps_call(lowered(signal@), was_previously_call),
    {
        let folded = signal.to_lowered();
        self.maintains(&folded, was_previously_call)
    }
}

/// A snapshot whose lower-case text names no call app is never a call: the
/// verdict is `Unknown` with confidence zero, whatever the signals are.
pub proof fn law_unknown_app_is_rejected(s: SignalView)
    requires
        !call_app_named(s.process_name, s.window_title, s.detected_app),
    ensures
        !evaluation(s).is_call,
        evaluation(s).confidence == 0,
        evaluation(s).signal_type == SignalType::Unknown,
{
}

/// Once the app-identity gate is passed, a media-site marker in the window
/// title makes the verdict `MediaPlayback`, whatever the other signals are.
pub proof fn law_media_site_is_playback(s: SignalView)
    requires
        call_app_named(s.process_name, s.window_title, s.detected_app),
        media_site_named(s.window_title),
    ensures
        evaluation(s).signal_type == SignalType::MediaPlayback,
        !evaluation(s).is_call,
{
}

/// Once the first two gates are passed, an active microphone with neither
/// audio output nor a network signal is a voice note and no call.
pub proof fn law_microphone_alone_is_voice_note(s: SignalView)
    requires
        call_app_named(s.process_name, s.window_title, s.detected_app),
        !media_site_named(s.window_title),
        s.has_mic_active,
        !s.has_audio_output,
        !s.has_webrtc_connection,
    ensures
        evaluation(s).signal_type == SignalType::VoiceNote,
        !evaluation(s).is_call,
{
}

/// The score never falls when a signal is added and the others are held fixed.
pub proof fn law_score_is_monotonic(
    audio: bool,
    network: bool,
    mic: bool,
    title: bool,
    penalized: bool,
)
    ensures
        score(false, network, mic, title, penalized) <= score(true, network, mic, title, penalized),
        score(audio, false, mic, title, penalized) <= score(audio, true, mic, title, penalized),
        score(audio, network, false, title, penalized) <= score(audio, network, true, title, penalized),
        score(audio, network, mic, false, penalized) <= score(audio, network, mic, true, penalized),
{
}

/// Of two snapshots that both reach the scoring stage under the same
/// duration penalty, the one that has every signal of the other has at
/// least its confidence.
pub proof fn law_confidence_is_monotonic(a: SignalView, b: SignalView)
    requires
        reaches_scoring(a),
        reaches_scoring(b),
        is_penalized(a.duration) == is_penalized(b.duration),
        audio_counts(a) ==> audio_counts(b),
        a.has_webrtc_connection ==> b.has_webrtc_connection,
        a.has_mic_active ==> b.has_mic_active,
        meeting_named(a.window_title) ==> meeting_named(b.window_title),
    ensures
        evaluation(a).confidence <= evaluation(b).confidence,
{
}

/// A verdict is a call exactly when no gate fired and the confidence is at
/// least the threshold; it is then, and only then, a `MeetingCall`.
pub proof fn law_threshold_decides(s: SignalView)
    ensures
        evaluation(s).is_call <==> reaches_scoring(s) && evaluation(s).confidence
            >= CALL_THRESHOLD,
        evaluation(s).is_call <==> evaluation(s).signal_type == SignalType::MeetingCall,
        evaluation(s).confidence <= ONE,
{
}

} // verus!
