use call_validator::audio_output_monitor::AudioAppInfo;
use call_validator::correlation_engine::CorrelationEngine;
use call_validator::monitor::{
    advance, call_event, continue_call, detect_call_app, detect_new_call, idle,
    is_browser_process, label_call_app, microphone_sources, other_sources, playing_sources,
    AudioSource, CallEvent, CallInfo, MonitorState, CALL_END_GRACE_PERIOD,
};
use call_validator::network_monitor::NetworkMonitor;
use call_validator::platform::PlatformUtils;

const SECOND: u64 = 1_000_000_000;
const MILLI: u64 = 1_000_000;

struct Platform;

impl PlatformUtils for Platform {
    fn get_process_name(_pid: u32) -> Result<String, String> {
        Ok("app".to_string())
    }

    fn get_window_title(_pid: u32) -> Result<String, String> {
        Ok("window".to_string())
    }
}

fn source(name: &str, pid: u32, title: &str) -> AudioSource {
    AudioSource {
        name: name.to_string(),
        process_id: pid,
        window_title: title.to_string(),
        detected_app: detect_call_app(name, title),
    }
}

fn mic(name: &str) -> AudioSource {
    source(name, 0, "")
}

fn running_call(last_seen: u64) -> CallInfo {
    CallInfo {
        app: "Zoom".to_string(),
        process_id: 42,
        window_title: "Zoom Meeting".to_string(),
        has_mic: true,
        has_audio: true,
        has_webrtc: true,
        confidence: 1_000_000,
        started_at: "10:15:00".to_string(),
        last_seen,
        call_started_system_time: 50 * SECOND,
    }
}

fn active(call: CallInfo) -> MonitorState {
    MonitorState { active_call: Some(call), other_audio_sources: Vec::new() }
}

#[test]
fn call_apps_are_recognised_by_name_or_title() {
    assert_eq!(detect_call_app("chrome.exe", "meet.google.com/abc"), Some("Google Meet".to_string()));
    assert_eq!(detect_call_app("Slack", ""), Some("Slack".to_string()));
    assert_eq!(detect_call_app("ZOOM.EXE", ""), Some("Zoom".to_string()));
    assert_eq!(detect_call_app("ms-teams", "Chat"), Some("Microsoft Teams".to_string()));
    assert_eq!(detect_call_app("WhatsApp", ""), Some("WhatsApp".to_string()));
    assert_eq!(detect_call_app("firefox", "Inbox"), None);
    assert_eq!(detect_call_app("slack", "zoom"), Some("Slack".to_string()));
    assert_eq!(detect_call_app("zoom", "team meeting"), Some("Google Meet".to_string()));
    assert_eq!(label_call_app("a whatsapp b"), Some("WhatsApp".to_string()));
    assert_eq!(label_call_app("ZOOM"), None);
    assert_eq!(label_call_app(""), None);
}

#[test]
fn browsers_are_recognised_by_name() {
    assert!(is_browser_process("chrome.exe"));
    assert!(is_browser_process("Google Chrome"));
    assert!(is_browser_process("firefox"));
    assert!(is_browser_process("msedge.exe"));
    assert!(is_browser_process("Microsoft Edge"));
    assert!(is_browser_process("Brave Browser"));
    assert!(!is_browser_process("Safari"));
    assert!(!is_browser_process("zoom"));
    assert!(!is_browser_process(""));
}

#[test]
fn the_first_state_is_idle() {
    let state = idle();
    assert!(state.active_call.is_none());
    assert!(state.other_audio_sources.is_empty());
}

#[test]
fn a_call_begins_with_the_first_candidate_that_is_judged_a_call() {
    let engine = CorrelationEngine::new();
    let mut network = NetworkMonitor::new();
    network.update_or_create_signal::<Platform>(20, 100 * SECOND);
    let audio = vec![
        source("vlc", 5, "Film"),
        source("chrome", 10, "YouTube - Google Meet"),
        source("zoom", 20, "Zoom - call with Ada"),
        source("slack", 30, "Slack call"),
    ];
    let mics = vec![mic("zoom"), mic("slack")];
    let state = advance(&engine, &network, &idle(), &mics, &audio, 100 * SECOND, "10:15:00");
    let call = state.active_call.unwrap();
    assert_eq!(call.app, "Zoom");
    assert_eq!(call.process_id, 20);
    assert_eq!(call.window_title, "Zoom - call with Ada");
    assert!(call.has_mic);
    assert!(call.has_audio);
    assert!(call.has_webrtc);
    assert_eq!(call.confidence, 1_000_000);
    assert_eq!(call.started_at, "10:15:00");
    assert_eq!(call.last_seen, 100 * SECOND);
    assert_eq!(call.call_started_system_time, 100 * SECOND);
    let others: Vec<u32> = state.other_audio_sources.iter().map(|s| s.process_id).collect();
    assert_eq!(others, vec![5, 10, 30]);
}

#[test]
fn audio_and_microphone_are_enough_for_a_call() {
    let engine = CorrelationEngine::new();
    let network = NetworkMonitor::new();
    let audio = vec![source("teams", 8, "Chat")];
    let mics = vec![mic("teams")];
    let call = detect_new_call(&engine, &network, &mics, &audio, 7, "09:00:00").unwrap();
    assert_eq!(call.app, "Microsoft Teams");
    assert_eq!(call.confidence, 550_000);
    assert!(!call.has_webrtc);
    let none = detect_new_call(&engine, &network, &Vec::new(), &audio, 7, "09:00:00");
    assert!(none.is_none());
}

#[test]
fn a_browser_counts_any_browser_at_the_microphone() {
    let engine = CorrelationEngine::new();
    let network = NetworkMonitor::new();
    let audio = vec![source("chrome", 8, "Meet - abc")];
    let mics = vec![mic("firefox")];
    let call = detect_new_call(&engine, &network, &mics, &audio, 7, "09:00:00").unwrap();
    assert_eq!(call.app, "Google Meet");
    assert!(call.has_mic);
    let native = vec![source("zoom", 9, "Zoom")];
    assert!(detect_new_call(&engine, &network, &mics, &native, 7, "09:00:00").is_none());
}

#[test]
fn no_candidate_no_call() {
    let engine = CorrelationEngine::new();
    let network = NetworkMonitor::new();
    let audio = vec![source("vlc", 5, "Film"), source("chrome", 6, "YouTube - Slack")];
    let mics = vec![mic("slack")];
    let state = advance(&engine, &network, &idle(), &mics, &audio, SECOND, "09:00:00");
    assert!(state.active_call.is_none());
    assert_eq!(state.other_audio_sources.len(), 2);
    let empty = advance(&engine, &network, &idle(), &Vec::new(), &Vec::new(), SECOND, "09:00:00");
    assert!(empty.active_call.is_none());
    assert!(empty.other_audio_sources.is_empty());
}

#[test]
fn a_call_that_keeps_audio_is_refreshed() {
    let engine = CorrelationEngine::new();
    let network = NetworkMonitor::new();
    let previous = active(running_call(100 * SECOND));
    let audio = vec![source("zoom", 42, "Zoom - Standup"), source("vlc", 5, "Film")];
    let state = advance(&engine, &network, &previous, &Vec::new(), &audio, 103 * SECOND, "x");
    let call = state.active_call.unwrap();
    assert_eq!(call.last_seen, 103 * SECOND);
    assert_eq!(call.app, "Zoom");
    assert_eq!(call.process_id, 42);
    assert_eq!(call.window_title, "Zoom - Standup");
    assert!(!call.has_mic);
    assert!(call.has_audio);
    assert!(!call.has_webrtc);
    assert_eq!(call.confidence, 400_000);
    assert_eq!(call.started_at, "10:15:00");
    assert_eq!(call.call_started_system_time, 50 * SECOND);
    let others: Vec<u32> = state.other_audio_sources.iter().map(|s| s.process_id).collect();
    assert_eq!(others, vec![5]);
}

#[test]
fn a_call_that_keeps_only_the_microphone_is_refreshed_with_its_last_title() {
    let engine = CorrelationEngine::new();
    let network = NetworkMonitor::new();
    let call = running_call(100 * SECOND);
    let mics = vec![mic("zoom")];
    let next = continue_call(&engine, &network, &call, &mics, &Vec::new(), 101 * SECOND).unwrap();
    assert_eq!(next.last_seen, 101 * SECOND);
    assert_eq!(next.window_title, "Zoom Meeting");
    assert!(next.has_mic);
    assert!(!next.has_audio);
    assert_eq!(next.confidence, 300_000);
}

#[test]
fn a_short_call_is_scored_with_the_penalty() {
    let engine = CorrelationEngine::new();
    let mut network = NetworkMonitor::new();
    network.update_or_create_signal::<Platform>(42, 52 * SECOND);
    let call = running_call(51 * SECOND);
    let audio = vec![source("zoom", 42, "Zoom")];
    let next = continue_call(&engine, &network, &call, &Vec::new(), &audio, 52 * SECOND).unwrap();
    assert_eq!(next.confidence, 525_000);
    let later = continue_call(&engine, &network, &call, &Vec::new(), &audio, 55 * SECOND).unwrap();
    assert_eq!(later.confidence, 750_000);
}

#[test]
fn a_call_without_signals_is_kept_for_the_grace_period() {
    assert_eq!(CALL_END_GRACE_PERIOD, 2 * SECOND);
    let engine = CorrelationEngine::new();
    let mut network = NetworkMonitor::new();
    network.update_or_create_signal::<Platform>(42, 100 * SECOND);
    let call = running_call(100 * SECOND);
    let none: Vec<AudioSource> = Vec::new();
    let kept = continue_call(&engine, &network, &call, &none, &none, 100 * SECOND + 1_999 * MILLI)
        .unwrap();
    assert_eq!(kept.last_seen, 100 * SECOND);
    assert_eq!(kept.confidence, 1_000_000);
    assert_eq!(kept.window_title, "Zoom Meeting");
    assert!(kept.has_mic && kept.has_audio && kept.has_webrtc);
    assert!(continue_call(&engine, &network, &call, &none, &none, 102 * SECOND - 1).is_some());
    assert!(continue_call(&engine, &network, &call, &none, &none, 102 * SECOND).is_none());
    assert!(
        continue_call(&engine, &network, &call, &none, &none, 100 * SECOND + 2_001 * MILLI)
            .is_none()
    );
    assert!(continue_call(&engine, &network, &call, &none, &none, 90 * SECOND).is_some());
}

#[test]
fn the_slot_is_cleared_when_the_grace_period_is_over() {
    let engine = CorrelationEngine::new();
    let network = NetworkMonitor::new();
    let previous = active(running_call(100 * SECOND));
    let audio = vec![source("vlc", 5, "Film")];
    let state = advance(&engine, &network, &previous, &Vec::new(), &audio, 110 * SECOND, "x");
    assert!(state.active_call.is_none());
    assert_eq!(state.other_audio_sources.len(), 1);
}

#[test]
fn a_call_whose_window_shows_another_app_is_not_maintained() {
    let engine = CorrelationEngine::new();
    let network = NetworkMonitor::new();
    let mut call = running_call(100 * SECOND);
    call.app = "Player".to_string();
    let audio = vec![source("player", 42, "Film")];
    assert!(continue_call(&engine, &network, &call, &Vec::new(), &audio, 103 * SECOND).is_none());
}

#[test]
fn other_sources_leave_out_the_process_of_the_call() {
    let audio = vec![source("a", 1, ""), source("zoom", 42, ""), source("b", 2, ""), source("z", 42, "")];
    let call = Some(running_call(0));
    let others: Vec<u32> = other_sources(&audio, &call).iter().map(|s| s.process_id).collect();
    assert_eq!(others, vec![1, 2]);
    let all = other_sources(&audio, &None);
    assert_eq!(all.len(), 4);
    assert_eq!(all[1].name, "zoom");
    assert_eq!(all[1].detected_app, Some("Zoom".to_string()));
}

#[test]
fn microphone_apps_become_sources_without_process() {
    let sources = microphone_sources(&vec!["zoom.us".to_string(), "Terminal".to_string()]);
    assert_eq!(sources.len(), 2);
    assert_eq!(sources[0].name, "zoom.us");
    assert_eq!(sources[0].process_id, 0);
    assert_eq!(sources[0].window_title, "");
    assert_eq!(sources[0].detected_app, Some("Zoom".to_string()));
    assert_eq!(sources[1].detected_app, None);
}

#[test]
fn playing_apps_become_sources() {
    let app = |name: &str, playing: bool, peak: u32, pid: u32| AudioAppInfo {
        name: name.to_string(),
        volume: 75_000_000,
        is_playing: playing,
        peak_level: peak,
        process_id: pid,
        window_title: format!("{} window", name),
    };
    let apps = vec![
        app("zoom", true, 0, 1),
        app("idle", false, 1_000, 2),
        app("loud", false, 1_001, 3),
        app("slack", true, 500_000, 4),
    ];
    let sources = playing_sources(&apps);
    let pids: Vec<u32> = sources.iter().map(|s| s.process_id).collect();
    assert_eq!(pids, vec![1, 3, 4]);
    assert_eq!(sources[0].window_title, "zoom window");
    assert_eq!(sources[0].detected_app, Some("Zoom".to_string()));
    assert_eq!(sources[1].detected_app, None);
}

#[test]
fn events_are_the_start_and_the_end_of_a_call() {
    let running = active(running_call(0));
    match call_event(&idle(), &running) {
        Some(CallEvent::Started { app }) => assert_eq!(app, "Zoom"),
        other => panic!("unexpected event: {:?}", other),
    }
    match call_event(&running, &idle()) {
        Some(CallEvent::Ended { app, started_at }) => {
            assert_eq!(app, "Zoom");
            assert_eq!(started_at, "10:15:00");
        }
        other => panic!("unexpected event: {:?}", other),
    }
    assert!(call_event(&idle(), &idle()).is_none());
    assert!(call_event(&running, &active(running_call(5))).is_none());
}
