use call_validator::audio::{AudioAppSession, AudioBackend, AudioInfo};
use call_validator::audio_output_monitor::AudioOutputMonitor;
use call_validator::mic_monitor::{driver_info, error_message, signal_level, MicMonitor};
use call_validator::platform::TargetOs;

const MILLI: u64 = 1_000_000;

fn session(name: &str, active: bool, peak: u32, pid: u32) -> AudioAppSession {
    AudioAppSession {
        name: name.to_string(),
        volume: 75_000_000,
        is_active: active,
        peak_level: peak,
        process_id: pid,
        window_title: format!("{} window", name),
    }
}

struct Working;

impl AudioBackend for Working {
    fn get_microphone_volume_and_mute() -> Result<AudioInfo, String> {
        Ok(AudioInfo { volume: 80_000_000, is_muted: false })
    }

    fn get_microphone_device_name() -> Result<String, String> {
        Ok("Headset".to_string())
    }

    fn get_apps_using_microphone() -> Result<Vec<String>, String> {
        Ok(vec!["zoom".to_string()])
    }

    fn get_audio_output_volume_and_mute() -> Result<AudioInfo, String> {
        Ok(AudioInfo { volume: 30_000_000, is_muted: true })
    }

    fn get_audio_output_device_name() -> Result<String, String> {
        Ok("Speakers".to_string())
    }

    fn get_audio_output_peak_level() -> Result<u32, String> {
        Ok(10_001)
    }

    fn get_apps_playing_audio() -> Result<Vec<AudioAppSession>, String> {
        Ok(vec![session("zoom", true, 400_000, 7), session("vlc", false, 0, 8)])
    }
}

struct Broken;

impl AudioBackend for Broken {
    fn get_microphone_volume_and_mute() -> Result<AudioInfo, String> {
        Err("no device".to_string())
    }

    fn get_microphone_device_name() -> Result<String, String> {
        Ok("never asked".to_string())
    }

    fn get_apps_using_microphone() -> Result<Vec<String>, String> {
        Err("no sessions".to_string())
    }

    fn get_audio_output_volume_and_mute() -> Result<AudioInfo, String> {
        Err("no sink".to_string())
    }

    fn get_audio_output_device_name() -> Result<String, String> {
        Ok("never asked".to_string())
    }

    fn get_audio_output_peak_level() -> Result<u32, String> {
        Err("no meter".to_string())
    }

    fn get_apps_playing_audio() -> Result<Vec<AudioAppSession>, String> {
        Err("no inputs".to_string())
    }
}

#[test]
fn the_driver_is_that_of_the_platform() {
    let name = |os| driver_info(os).map(|driver| driver.name);
    assert_eq!(name(TargetOs::Windows), Some("Windows Audio".to_string()));
    assert_eq!(name(TargetOs::Linux), Some("PulseAudio".to_string()));
    assert_eq!(name(TargetOs::MacOs), Some("Core Audio".to_string()));
    assert_eq!(name(TargetOs::Other), None);
    let driver = driver_info(TargetOs::Linux).unwrap();
    assert_eq!(driver.version, "Built-in");
    assert_eq!(driver.status, "OK");
}

#[test]
fn the_signal_level_follows_the_state_of_the_microphone() {
    assert_eq!(signal_level(true, true, 0), 50_000);
    assert_eq!(signal_level(true, true, 59 * MILLI), 640_000);
    assert_eq!(signal_level(true, true, 60 * MILLI), 50_000);
    assert_eq!(signal_level(true, true, 61 * MILLI + 999_999), 60_000);
    assert_eq!(signal_level(false, true, 33 * MILLI), 20_000);
    assert_eq!(signal_level(true, false, 33 * MILLI), 0);
    assert_eq!(signal_level(false, false, 33 * MILLI), 0);
}

#[test]
fn an_error_message_names_its_reason() {
    assert_eq!(error_message("Audio backend error: ", "gone"), "Audio backend error: gone");
    assert_eq!(error_message("", ""), "");
}

#[test]
fn a_working_microphone_is_reported() {
    let mut monitor = MicMonitor::new().unwrap();
    let report = monitor
        .build_status_report::<Working>(TargetOs::Linux, "2024-01-01T00:00:00Z".to_string(), 7 * MILLI)
        .unwrap();
    assert_eq!(report.timestamp, "2024-01-01T00:00:00Z");
    assert_eq!(report.mic.default_device, "Headset");
    assert!(!report.mic.is_muted);
    assert_eq!(report.mic.volume_level, 80_000_000);
    assert!(report.mic.is_ready);
    assert!(report.mic.is_in_use);
    assert_eq!(report.mic.signal_level, 120_000);
    assert!(report.permissions.global);
    assert!(report.permissions.app_access.is_empty());
    assert!(report.conflicts.exclusive_lock);
    assert_eq!(report.conflicts.apps_using_mic, vec!["zoom".to_string()]);
    assert_eq!(report.driver_status.name, "PulseAudio");
    assert!(report.errors.is_empty());
}

#[test]
fn a_broken_microphone_is_reported_with_defaults_and_errors() {
    let mut monitor = MicMonitor::new().unwrap();
    let report = monitor
        .build_status_report::<Broken>(TargetOs::MacOs, "t".to_string(), 7 * MILLI)
        .unwrap();
    assert_eq!(report.mic.default_device, "Default Microphone");
    assert!(!report.mic.is_muted);
    assert_eq!(report.mic.volume_level, 50_000_000);
    assert!(report.mic.is_ready);
    assert!(!report.mic.is_in_use);
    assert_eq!(report.mic.signal_level, 20_000);
    assert!(!report.conflicts.exclusive_lock);
    assert!(report.conflicts.apps_using_mic.is_empty());
    assert_eq!(report.driver_status.name, "Core Audio");
    assert_eq!(
        report.errors,
        vec![
            "Audio backend error: no device".to_string(),
            "Failed to get mic apps: no sessions".to_string(),
            "Failed to enumerate mic sessions: no sessions".to_string(),
        ]
    );
    let again = monitor
        .build_status_report::<Broken>(TargetOs::MacOs, "t".to_string(), 7 * MILLI)
        .unwrap();
    assert_eq!(again.errors.len(), 6);
}

#[test]
fn the_state_of_the_microphone_follows_the_answers() {
    let mut monitor = MicMonitor::new().unwrap();
    let muted = monitor.mic_info_from(
        Ok(AudioInfo { volume: 80_000_000, is_muted: true }),
        Err("x".to_string()),
        Ok(vec!["a".to_string(), "b".to_string()]),
        0,
    );
    assert_eq!(muted.default_device, "Default Microphone");
    assert!(muted.is_muted);
    assert!(!muted.is_ready);
    assert!(muted.is_in_use);
    assert_eq!(muted.signal_level, 0);
    let silent = monitor.mic_info_from(
        Ok(AudioInfo { volume: 0, is_muted: false }),
        Ok("Mic".to_string()),
        Ok(Vec::new()),
        0,
    );
    assert_eq!(silent.default_device, "Mic");
    assert!(!silent.is_ready);
    assert!(!silent.is_in_use);
    let two = monitor.conflicts_from(Ok(vec!["a".to_string(), "b".to_string()]));
    assert!(!two.exclusive_lock);
    assert_eq!(two.apps_using_mic.len(), 2);
    let none = monitor.conflicts_from(Ok(Vec::new()));
    assert!(!none.exclusive_lock);
    let report = monitor.build_status_report::<Working>(TargetOs::Linux, String::new(), 0).unwrap();
    assert!(report.errors.is_empty());
}

#[test]
fn other_platforms_have_no_microphone_report() {
    let mut monitor = MicMonitor::new().unwrap();
    let error = monitor
        .build_status_report::<Working>(TargetOs::Other, "t".to_string(), 0)
        .unwrap_err();
    assert_eq!(error, "Microphone monitoring is only supported on Windows, Linux, and macOS");
}

#[test]
fn a_working_output_is_reported() {
    let mut monitor = AudioOutputMonitor::new().unwrap();
    let report = monitor
        .build_status_report::<Working>(TargetOs::Windows, "stamp".to_string())
        .unwrap();
    assert_eq!(report.timestamp, "stamp");
    assert_eq!(report.output.default_device, "Speakers");
    assert!(report.output.is_muted);
    assert_eq!(report.output.volume_level, 30_000_000);
    assert_eq!(report.output.peak_level, 10_001);
    assert!(report.output.is_active);
    assert_eq!(report.active_apps.len(), 2);
    assert_eq!(report.active_apps[0].name, "zoom");
    assert!(report.active_apps[0].is_playing);
    assert_eq!(report.active_apps[0].peak_level, 400_000);
    assert_eq!(report.active_apps[0].volume, 75_000_000);
    assert_eq!(report.active_apps[0].process_id, 7);
    assert_eq!(report.active_apps[0].window_title, "zoom window");
    assert!(!report.active_apps[1].is_playing);
    assert!(report.errors.is_empty());
}

#[test]
fn a_broken_output_is_reported_with_defaults_and_errors() {
    let mut monitor = AudioOutputMonitor::new().unwrap();
    let report =
        monitor.build_status_report::<Broken>(TargetOs::Linux, "stamp".to_string()).unwrap();
    assert_eq!(report.output.default_device, "Default Speakers");
    assert!(!report.output.is_muted);
    assert_eq!(report.output.volume_level, 50_000_000);
    assert_eq!(report.output.peak_level, 0);
    assert!(!report.output.is_active);
    assert!(report.active_apps.is_empty());
    assert_eq!(
        report.errors,
        vec![
            "Audio output error: no sink".to_string(),
            "Failed to get peak level: no meter".to_string(),
            "Failed to get playing apps: no inputs".to_string(),
        ]
    );
}

#[test]
fn output_counts_as_active_above_one_hundredth() {
    let mut monitor = AudioOutputMonitor::new().unwrap();
    let state = || Ok(AudioInfo { volume: 10_000_000, is_muted: false });
    let quiet = monitor.output_info_from(state(), Err("x".to_string()), Ok(10_000));
    assert!(!quiet.is_active);
    assert_eq!(quiet.default_device, "Default Speakers");
    let loud = monitor.output_info_from(state(), Ok("Out".to_string()), Ok(10_001));
    assert!(loud.is_active);
    assert_eq!(loud.default_device, "Out");
    assert!(monitor.active_apps_from(Ok(Vec::new())).is_empty());
}

#[test]
fn other_platforms_have_no_output_report() {
    let mut monitor = AudioOutputMonitor::new().unwrap();
    let error = monitor.build_status_report::<Working>(TargetOs::Other, "t".to_string()).unwrap_err();
    assert_eq!(error, "Audio output monitoring is only supported on Windows, Linux, and macOS");
}
