use call_validator::correlation_engine::{
    is_call_confidence, weigh, CorrelationEngine, DetectionResult, MultiSignal, SignalType,
    CALL_THRESHOLD,
};

const SECOND: u64 = 1_000_000_000;

fn snapshot(name: &str, title: &str, app: Option<&str>) -> MultiSignal {
    MultiSignal {
        process_id: 1234,
        process_name: name.to_string(),
        window_title: title.to_string(),
        has_mic_active: false,
        has_audio_output: false,
        audio_peak_level: 0,
        has_webrtc_connection: false,
        webrtc_started_at: None,
        detected_app: app.map(|a| a.to_string()),
        duration: 0,
    }
}

fn reasons(result: &DetectionResult) -> Vec<&str> {
    result.reasons.iter().map(|r| r.as_str()).collect()
}

#[test]
fn test_voice_note_detection() {
    let engine = CorrelationEngine::new();

    let voice_note_signal = MultiSignal {
        process_id: 1234,
        process_name: "WhatsApp.exe".to_string(),
        window_title: "WhatsApp".to_string(),
        has_mic_active: true,
        has_audio_output: false,
        audio_peak_level: 0,
        has_webrtc_connection: false,
        webrtc_started_at: None,
        detected_app: Some("WhatsApp".to_string()),
        duration: 30 * SECOND,
    };

    assert!(engine.is_voice_note(&voice_note_signal));
}

#[test]
fn test_youtube_filtering() {
    let engine = CorrelationEngine::new();

    assert!(engine.is_media_site("YouTube - Broadcast Yourself"));
    assert!(engine.is_media_site("Netflix - Watch TV Shows"));
    assert!(!engine.is_media_site("Google Meet - Meeting"));
}

#[test]
fn unknown_app_is_rejected_whatever_the_signals() {
    let engine = CorrelationEngine::new();
    let mut signal = snapshot("notepad", "Untitled", None);
    signal.has_mic_active = true;
    signal.has_audio_output = true;
    signal.audio_peak_level = 900_000;
    signal.has_webrtc_connection = true;
    let result = engine.detect_call(&signal);
    assert!(!result.is_call);
    assert_eq!(result.confidence, 0);
    assert_eq!(result.signal_type, SignalType::Unknown);
    assert_eq!(reasons(&result), vec!["Not a known call app"]);
}

#[test]
fn media_site_in_title_is_playback() {
    let engine = CorrelationEngine::new();
    let mut signal = snapshot("browser", "YouTube - Lo-fi beats", Some("Google Meet"));
    signal.has_audio_output = true;
    signal.audio_peak_level = 200_000;
    signal.has_mic_active = true;
    signal.has_webrtc_connection = true;
    let result = engine.detect_call(&signal);
    assert!(!result.is_call);
    assert_eq!(result.confidence, 0);
    assert_eq!(result.signal_type, SignalType::MediaPlayback);
    assert_eq!(reasons(&result), vec!["Media playback site detected"]);
}

#[test]
fn a_browser_on_a_media_site_is_playback() {
    let engine = CorrelationEngine::new();
    let mut signal = snapshot("browser", "YouTube - Lo-fi beats", Some("Google Meet"));
    signal.has_audio_output = true;
    signal.audio_peak_level = 100_000;
    let result = engine.detect_call(&signal);
    assert_eq!(result.signal_type, SignalType::MediaPlayback);
    assert!(!result.is_call);
}

#[test]
fn media_site_without_call_app_stops_at_the_first_gate() {
    let engine = CorrelationEngine::new();
    let mut signal = snapshot("browser", "YouTube - Lo-fi beats", None);
    signal.has_audio_output = true;
    signal.audio_peak_level = 200_000;
    let result = engine.detect_call(&signal);
    assert!(!result.is_call);
    assert_eq!(result.confidence, 0);
    assert_eq!(result.signal_type, SignalType::Unknown);
}

#[test]
fn microphone_alone_is_a_voice_note() {
    let engine = CorrelationEngine::new();
    let mut signal = snapshot("zoom", "Zoom", None);
    signal.has_mic_active = true;
    signal.duration = 500 * SECOND;
    let result = engine.detect_call(&signal);
    assert!(!result.is_call);
    assert_eq!(result.signal_type, SignalType::VoiceNote);
    assert_eq!(result.confidence, 300_000);
    assert_eq!(reasons(&result), vec!["Voice note pattern detected"]);
}

#[test]
fn short_microphone_session_on_messaging_app_is_a_voice_note() {
    let engine = CorrelationEngine::new();
    let mut signal = snapshot("slack", "Slack", Some("Slack"));
    signal.has_mic_active = true;
    signal.has_audio_output = true;
    signal.audio_peak_level = 200_000;
    signal.duration = 119 * SECOND;
    assert!(engine.is_voice_note(&signal));
    assert_eq!(engine.detect_call(&signal).signal_type, SignalType::VoiceNote);
    signal.duration = 120 * SECOND;
    assert!(!engine.is_voice_note(&signal));
    let result = engine.detect_call(&signal);
    assert_eq!(result.signal_type, SignalType::MeetingCall);
    assert_eq!(result.confidence, 550_000);
    signal.duration = 30 * SECOND;
    signal.detected_app = Some("Zoom".to_string());
    assert!(!engine.is_voice_note(&signal));
}

#[test]
fn full_signals_score_one() {
    let engine = CorrelationEngine::new();
    let mut signal = snapshot("meet-app", "Team Sync - Meeting", None);
    signal.has_mic_active = true;
    signal.has_audio_output = true;
    signal.audio_peak_level = 200_000;
    signal.has_webrtc_connection = true;
    let result = engine.detect_call(&signal);
    assert_eq!(result.confidence, 1_000_000);
    assert!(result.is_call);
    assert_eq!(result.signal_type, SignalType::MeetingCall);
    assert_eq!(
        reasons(&result),
        vec![
            "Audio output active",
            "WebRTC connection detected",
            "Microphone active",
            "Window title confirms meeting",
        ]
    );
}

#[test]
fn each_weight_is_added_on_its_own() {
    assert_eq!(weigh(false, false, false, false, false), 0);
    assert_eq!(weigh(true, false, false, false, false), 400_000);
    assert_eq!(weigh(false, true, false, false, false), 350_000);
    assert_eq!(weigh(false, false, true, false, false), 150_000);
    assert_eq!(weigh(false, false, false, true, false), 100_000);
    assert_eq!(weigh(true, true, true, true, false), 1_000_000);
}

#[test]
fn short_duration_multiplies_by_seven_tenths() {
    assert_eq!(weigh(true, true, true, true, true), 700_000);
    assert_eq!(weigh(true, false, true, true, true), 455_000);
    assert_eq!(weigh(false, true, false, true, true), 315_000);
}

#[test]
fn score_never_falls_when_a_signal_is_added() {
    for bits in 0u32..32 {
        let audio = bits & 1 != 0;
        let network = bits & 2 != 0;
        let mic = bits & 4 != 0;
        let title = bits & 8 != 0;
        let penalized = bits & 16 != 0;
        let base = weigh(audio, network, mic, title, penalized);
        assert!(base <= weigh(true, network, mic, title, penalized));
        assert!(base <= weigh(audio, true, mic, title, penalized));
        assert!(base <= weigh(audio, network, true, title, penalized));
        assert!(base <= weigh(audio, network, mic, true, penalized));
    }
}

#[test]
fn threshold_is_inclusive() {
    assert_eq!(CALL_THRESHOLD, 450_000);
    assert!(is_call_confidence(450_000));
    assert!(!is_call_confidence(449_999));
    assert!(is_call_confidence(1_000_000));
    assert!(!is_call_confidence(0));
}

#[test]
fn network_and_title_reach_the_threshold_exactly() {
    let engine = CorrelationEngine::new();
    let mut signal = snapshot("zoom", "Weekly conference", None);
    signal.has_webrtc_connection = true;
    let result = engine.detect_call(&signal);
    assert_eq!(result.confidence, 450_000);
    assert!(result.is_call);
    assert_eq!(result.signal_type, SignalType::MeetingCall);
    assert_eq!(
        reasons(&result),
        vec![
            "WebRTC connection detected",
            "Microphone muted/off",
            "Window title confirms meeting",
        ]
    );
}

#[test]
fn silent_audio_output_does_not_count() {
    let engine = CorrelationEngine::new();
    let mut signal = snapshot("zoom", "Zoom", None);
    signal.has_audio_output = true;
    signal.has_webrtc_connection = true;
    signal.audio_peak_level = 1_000;
    let result = engine.detect_call(&signal);
    assert_eq!(result.confidence, 350_000);
    assert!(!result.is_call);
    assert_eq!(result.signal_type, SignalType::Unknown);
    signal.audio_peak_level = 1_001;
    let result = engine.detect_call(&signal);
    assert_eq!(result.confidence, 750_000);
    assert!(result.is_call);
}

#[test]
fn penalty_applies_strictly_between_one_and_five_seconds() {
    let engine = CorrelationEngine::new();
    let mut signal = snapshot("zoom", "Zoom", None);
    signal.has_audio_output = true;
    signal.audio_peak_level = 100_000;
    signal.has_webrtc_connection = true;
    for (duration, expected) in [
        (0, 750_000),
        (SECOND, 750_000),
        (SECOND + 1, 525_000),
        (5 * SECOND - 1, 525_000),
        (5 * SECOND, 750_000),
    ] {
        signal.duration = duration;
        let result = engine.detect_call(&signal);
        assert_eq!(result.confidence, expected);
    }
    signal.duration = 3 * SECOND;
    let result = engine.detect_call(&signal);
    assert_eq!(
        reasons(&result),
        vec![
            "Audio output active",
            "WebRTC connection detected",
            "Microphone muted/off",
            "Short duration - reduced confidence",
        ]
    );
}

#[test]
fn markers_are_matched_without_regard_to_case() {
    let engine = CorrelationEngine::new();
    assert!(engine.is_call_app("ZOOM.EXE", "", &None));
    assert!(engine.is_call_app("chrome", "Standup", &Some("Microsoft Teams".to_string())));
    assert!(!engine.is_call_app("chrome", "Standup", &None));
    assert!(engine.window_title_confirms_call("Daily MEETING"));
    assert!(engine.window_title_confirms_call("Call with Ada"));
    assert!(!engine.window_title_confirms_call("Inbox"));
    assert!(engine.is_media_site("Prime Video: Home"));
}

#[test]
fn lowered_text_is_evaluated_as_given() {
    let engine = CorrelationEngine::new();
    let mut signal = snapshot("ZOOM", "", None);
    signal.has_audio_output = true;
    signal.audio_peak_level = 100_000;
    signal.has_mic_active = true;
    assert_eq!(engine.evaluate(&signal).signal_type, SignalType::Unknown);
    let folded = signal.to_lowered();
    assert_eq!(folded.process_name, "zoom");
    let result = engine.evaluate(&folded);
    assert_eq!(result.confidence, 550_000);
    assert!(result.is_call);
    assert!(engine.finds_call_app("my zoom", "", None));
    assert!(!engine.finds_call_app("my", "zo", Some("om")));
    assert!(engine.finds_media_site("spotify"));
    assert!(engine.finds_meeting("a meet b"));
    assert!(!engine.finds_meeting("meet"));
}

#[test]
fn a_call_is_maintained_by_audio_or_microphone() {
    let engine = CorrelationEngine::new();
    let mut signal = snapshot("Zoom", "Zoom", Some("Zoom"));
    assert!(!engine.should_maintain_call(&signal, true));
    signal.has_audio_output = true;
    assert!(engine.should_maintain_call(&signal, true));
    assert!(!engine.should_maintain_call(&signal, false));
    signal.has_audio_output = false;
    signal.has_mic_active = true;
    assert!(engine.should_maintain_call(&signal, true));
    signal.has_mic_active = false;
    signal.has_webrtc_connection = true;
    assert!(!engine.should_maintain_call(&signal, true));
    signal.has_mic_active = true;
    assert!(engine.should_maintain_call(&signal, true));
    let mut stranger = snapshot("notepad", "Untitled", None);
    stranger.has_audio_output = true;
    stranger.has_mic_active = true;
    stranger.has_webrtc_connection = true;
    assert!(!engine.should_maintain_call(&stranger, true));
}
