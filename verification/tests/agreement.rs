use call_validator::audio::macos::{apps_in_microphone_log, get_running_processes};
use call_validator::correlation_engine::{CorrelationEngine, MultiSignal, SignalType};
use call_validator::monitor::{detect_call_app, is_browser_process};
use call_validator::network_monitor::{
    address_qualifies, lsof_line_process, netstat_line_process, ss_line_process,
};
use call_validator::platform::linux::{
    extract_domain, get_title_from_cmdline, get_window_title_wmctrl,
};
use call_validator::platform::CommandOutcome;
use call_validator::system_info::{get_linux_version, get_macos_version, get_windows_version};

struct Pieces {
    state: u64,
}

impl Pieces {
    fn next(&mut self) -> u64 {
        self.state = self.state.wrapping_mul(6364136223846793005).wrapping_add(1442695040888963407);
        self.state >> 33
    }

    fn pick<'a>(&mut self, from: &[&'a str]) -> &'a str {
        from[(self.next() % from.len() as u64) as usize]
    }

    fn text(&mut self, from: &[&str], most: u64) -> String {
        let count = self.next() % (most + 1);
        (0..count).map(|_| self.pick(from)).collect()
    }
}

fn chars(s: &str) -> Vec<char> {
    s.chars().collect()
}

fn port_rule(addr: &str) -> bool {
    if let Some(port_str) = addr.split(':').last() {
        if let Ok(port) = port_str.parse::<u16>() {
            if port == 3478 || port == 19302 || port == 5349 {
                return true;
            }
            if port >= 10000 {
                return true;
            }
        }
    }
    false
}

fn ss_rule(line: &str) -> Option<u32> {
    if !line.contains("users:") {
        return None;
    }
    let parts: Vec<&str> = line.split_whitespace().collect();
    if parts.len() < 5 || !port_rule(parts[3]) {
        return None;
    }
    let users_part = line.split("users:").nth(1)?;
    let pid_part = users_part.split("pid=").nth(1)?;
    let pid = pid_part.split(',').next()?.trim().parse::<u32>().ok()?;
    if pid > 0 {
        Some(pid)
    } else {
        None
    }
}

fn netstat_rule(line: &str) -> Option<u32> {
    let parts: Vec<&str> = line.split_whitespace().collect();
    if parts.len() >= 4 && parts[0] == "UDP" {
        let pid = parts.last()?.parse::<u32>().ok()?;
        if pid != 0 && port_rule(parts[1]) {
            return Some(pid);
        }
    }
    None
}

fn lsof_rule(line: &str) -> Option<u32> {
    let parts: Vec<&str> = line.split_whitespace().collect();
    if parts.len() < 9 {
        return None;
    }
    let pid = parts[1].parse::<u32>().ok()?;
    if pid != 0 && port_rule(parts.last()?) {
        Some(pid)
    } else {
        None
    }
}

#[test]
fn addresses_and_lines_are_read_as_plain_rules_read_them() {
    let address_pieces =
        ["0", "1", "3478", "19302", "5349", "9999", "10000", "65535", "65536", ":", "*", "+", ".", " ", "[::]", "a"];
    let line_pieces = [
        "UDP", "udp", "UNCONN", "ESTAB", " ", "  ", "\t", "0", "1234", "0.0.0.0:3478", "*:12345",
        "[::]:80", "10.0.0.1:19302", "*:*", "users:", "((\"x\",", "pid=", "pid= 7 ", "42", ",",
        "fd=3))", "chrome", "IPv4", "0t0", "+5", "-1", "4294967296",
    ];
    let mut pieces = Pieces { state: 7 };
    for _ in 0..4000 {
        let addr = pieces.text(&address_pieces, 4);
        assert_eq!(address_qualifies(&chars(&addr)), port_rule(&addr), "{:?}", addr);
        let line = pieces.text(&line_pieces, 14);
        assert_eq!(ss_line_process(&chars(&line)), ss_rule(&line), "{:?}", line);
        assert_eq!(netstat_line_process(&chars(&line)), netstat_rule(&line), "{:?}", line);
        assert_eq!(lsof_line_process(&chars(&line)), lsof_rule(&line), "{:?}", line);
    }
}

fn label_rule(process_name: &str, window_title: &str) -> Option<String> {
    let combined = format!("{} {}", process_name.to_lowercase(), window_title.to_lowercase());
    for app in ["meet.google.com", "meet", "slack", "zoom", "teams", "whatsapp"] {
        if combined.contains(app) {
            return Some(
                match app {
                    "meet.google.com" | "meet" => "Google Meet",
                    "slack" => "Slack",
                    "zoom" => "Zoom",
                    "teams" => "Microsoft Teams",
                    _ => "WhatsApp",
                }
                .to_string(),
            );
        }
    }
    None
}

fn browser_rule(process_name: &str) -> bool {
    let lower = process_name.to_lowercase();
    ["chrome", "firefox", "edge", "msedge", "brave"].iter().any(|b| lower.contains(b))
}

struct Verdict {
    is_call: bool,
    confidence: f32,
    signal_type: SignalType,
    reasons: Vec<String>,
}

fn verdict(kind: SignalType, confidence: f32, reason: &str) -> Verdict {
    Verdict { is_call: false, confidence, signal_type: kind, reasons: vec![reason.to_string()] }
}

fn detect_rule(signal: &MultiSignal) -> Verdict {
    let title = signal.window_title.to_lowercase();
    let app = signal.detected_app.as_ref().map(|s| s.to_lowercase());
    let combined = format!(
        "{} {} {}",
        signal.process_name.to_lowercase(),
        title,
        app.clone().unwrap_or_default()
    );
    let call_apps = ["meet", "google meet", "slack", "zoom", "teams", "microsoft teams", "whatsapp"];
    if !call_apps.iter().any(|m| combined.contains(m)) {
        return verdict(SignalType::Unknown, 0.0, "Not a known call app");
    }
    let media =
        ["youtube", "netflix", "spotify", "twitch", "soundcloud", "apple music", "prime video"];
    if media.iter().any(|m| title.contains(m)) {
        return verdict(SignalType::MediaPlayback, 0.0, "Media playback site detected");
    }
    let seconds = signal.duration as f64 / 1e9;
    let messaging = app.map(|a| a.contains("whatsapp") || a.contains("slack")).unwrap_or(false);
    if signal.has_mic_active
        && !signal.has_webrtc_connection
        && (!signal.has_audio_output || (seconds < 120.0 && messaging))
    {
        return verdict(SignalType::VoiceNote, 0.3, "Voice note pattern detected");
    }
    let mut confidence: f32 = 0.0;
    let mut reasons = Vec::new();
    if signal.has_audio_output && signal.audio_peak_level as f64 / 1e6 > 0.001 {
        confidence += 0.40;
        reasons.push("Audio output active".to_string());
    }
    if signal.has_webrtc_connection {
        confidence += 0.35;
        reasons.push("WebRTC connection detected".to_string());
    }
    if signal.has_mic_active {
        confidence += 0.15;
        reasons.push("Microphone active".to_string());
    } else {
        reasons.push("Microphone muted/off".to_string());
    }
    let keywords =
        ["meeting", "call with", "video call", "zoom meeting", "teams meeting", " meet ", "conference"];
    if keywords.iter().any(|k| title.contains(k)) {
        confidence += 0.10;
        reasons.push("Window title confirms meeting".to_string());
    }
    if seconds > 1.0 && seconds < 5.0 {
        confidence *= 0.7;
        reasons.push("Short duration - reduced confidence".to_string());
    }
    let is_call = confidence >= 0.45;
    Verdict {
        is_call,
        confidence,
        signal_type: if is_call { SignalType::MeetingCall } else { SignalType::Unknown },
        reasons,
    }
}

fn maintain_rule(signal: &MultiSignal, was_call: bool) -> bool {
    let combined = format!(
        "{} {} {}",
        signal.process_name.to_lowercase(),
        signal.window_title.to_lowercase(),
        signal.detected_app.as_ref().map(|s| s.to_lowercase()).unwrap_or_default()
    );
    let call_apps = ["meet", "google meet", "slack", "zoom", "teams", "microsoft teams", "whatsapp"];
    was_call
        && call_apps.iter().any(|m| combined.contains(m))
        && (signal.has_audio_output || signal.has_mic_active)
}

#[test]
fn verdicts_agree_with_the_rules_in_decimal_fractions() {
    let engine = CorrelationEngine::new();
    let names = ["chrome", "Zoom.exe", "slack", "vlc", "Teams", "WhatsApp", "", "MEET"];
    let titles = [
        "",
        "Team Sync - Meeting",
        "YouTube - Lo-fi beats",
        "Call with Ada",
        "Inbox",
        "a meet b",
        "Netflix",
        "Weekly Conference",
        "Prime Video zoom meeting",
    ];
    let apps = [None, Some("Google Meet"), Some("Slack"), Some("WhatsApp"), Some("Zoom"), Some("Player")];
    let durations: [u64; 8] = [
        0,
        1_000_000_000,
        1_000_000_001,
        3_000_000_000,
        4_999_999_999,
        5_000_000_000,
        119_999_999_999,
        120_000_000_000,
    ];
    let peaks: [u32; 4] = [0, 1_000, 1_001, 200_000];
    let mut pieces = Pieces { state: 99 };
    for round in 0..6000u32 {
        let signal = MultiSignal {
            process_id: round,
            process_name: pieces.pick(&names).to_string(),
            window_title: pieces.pick(&titles).to_string(),
            has_mic_active: pieces.next() % 2 == 0,
            has_audio_output: pieces.next() % 2 == 0,
            audio_peak_level: peaks[(pieces.next() % 4) as usize],
            has_webrtc_connection: pieces.next() % 2 == 0,
            webrtc_started_at: None,
            detected_app: apps[(pieces.next() % 6) as usize].map(|a| a.to_string()),
            duration: durations[(pieces.next() % 8) as usize],
        };
        let expected = detect_rule(&signal);
        let got = engine.detect_call(&signal);
        assert_eq!(got.is_call, expected.is_call, "{:?}", signal);
        assert_eq!(got.signal_type, expected.signal_type, "{:?}", signal);
        assert_eq!(got.reasons, expected.reasons, "{:?}", signal);
        let difference = got.confidence as f64 / 1e6 - expected.confidence as f64;
        assert!(difference.abs() < 1e-6, "{:?}", signal);
        for was_call in [true, false] {
            assert_eq!(
                engine.should_maintain_call(&signal, was_call),
                maintain_rule(&signal, was_call),
                "{:?}",
                signal
            );
        }
        assert_eq!(
            detect_call_app(&signal.process_name, &signal.window_title),
            label_rule(&signal.process_name, &signal.window_title)
        );
        assert_eq!(is_browser_process(&signal.process_name), browser_rule(&signal.process_name));
    }
    for name in ["Google Chrome", "FIREFOX", "msedge.exe", "Microsoft Edge", "Brave", "Safari", ""] {
        assert_eq!(is_browser_process(name), browser_rule(name));
    }
}

fn domain_rule(url: &str) -> String {
    if let Some(domain_start) = url.find("://") {
        let after_protocol = &url[domain_start + 3..];
        if let Some(slash_pos) = after_protocol.find('/') {
            return after_protocol[..slash_pos].to_string();
        }
        return after_protocol.to_string();
    }
    url.to_string()
}

fn cmdline_rule(cmdline: &str) -> Result<String, String> {
    let args: Vec<&str> = cmdline.split('\0').filter(|s| !s.is_empty()).collect();
    if !args.is_empty() {
        for arg in &args {
            if arg.contains("meet.google.com")
                || arg.contains("teams.microsoft.com")
                || arg.contains("zoom.us")
            {
                return Ok(format!("Meeting: {}", domain_rule(arg)));
            }
            if arg.contains("--app=") {
                if let Some(app_name) = arg.split("--app=").nth(1) {
                    return Ok(app_name.to_string());
                }
            }
            if arg.contains("--title=") || arg.contains("--name=") {
                if let Some(title) = arg.split('=').nth(1) {
                    return Ok(title.to_string());
                }
            }
        }
        if let Some(exe) = args.first() {
            if let Some(basename) = exe.split('/').last() {
                return Ok(basename.to_string());
            }
        }
    }
    Err("Could not extract title from cmdline".to_string())
}

fn wmctrl_rule(listing: &str, pid: u32) -> Result<String, String> {
    for line in listing.lines() {
        let parts: Vec<&str> = line.split_whitespace().collect();
        if parts.len() >= 5 {
            if let Ok(window_pid) = parts[2].parse::<u32>() {
                if window_pid == pid {
                    return Ok(parts[4..].join(" "));
                }
            }
        }
    }
    Err("wmctrl not available or window not found".to_string())
}

#[test]
fn titles_are_found_as_plain_rules_find_them() {
    let pieces_of_args = [
        "\0", "/", "usr", "bin", "chrome", "--app=", "--title=", "--name=", "=", "x", "https", "://",
        "meet.google.com", "zoom.us", "teams.microsoft.com", " ", "--", "é",
    ];
    let pieces_of_lines = ["\n", "\r\n", " ", "  ", "0x01", "0", "42", "7", "host", "My", "title", "-1", "+42"];
    let mut pieces = Pieces { state: 3 };
    for _ in 0..4000 {
        let cmdline = pieces.text(&pieces_of_args, 10);
        assert_eq!(get_title_from_cmdline(Some(&cmdline)), cmdline_rule(&cmdline), "{:?}", cmdline);
        let url = pieces.text(&pieces_of_args, 6);
        assert_eq!(extract_domain(&url), domain_rule(&url), "{:?}", url);
        let listing = pieces.text(&pieces_of_lines, 30);
        let outcome = CommandOutcome::Ran { success: true, stdout: listing.clone() };
        for pid in [42, 7] {
            assert_eq!(get_window_title_wmctrl(&outcome, pid), wmctrl_rule(&listing, pid), "{:?}", listing);
        }
    }
}

fn processes_rule(listing: &str) -> Vec<(String, u32)> {
    let mut found = Vec::new();
    for line in listing.lines().skip(1) {
        let parts: Vec<&str> = line.trim().split_whitespace().collect();
        if parts.len() >= 2 {
            if let Ok(pid) = parts[0].parse::<u32>() {
                let comm = parts[1..].join(" ");
                let app_name = comm.split('/').last().unwrap_or(&comm).to_string();
                found.push((app_name, pid));
            }
        }
    }
    found
}

fn log_rule(log: &str) -> Vec<String> {
    let mut apps: Vec<String> = Vec::new();
    for line in log.lines() {
        if line.contains("ALLOW") || line.contains("kTCCServiceMicrophone") {
            if let Some(app_start) = line.find("identifier=") {
                if let Some(app_part) = line[app_start..].split_whitespace().next() {
                    let app_name = app_part.replace("identifier=", "").replace(",", "");
                    if !app_name.is_empty() && !apps.contains(&app_name) {
                        apps.push(app_name);
                    }
                }
            }
        }
    }
    apps
}

#[test]
fn listings_are_read_as_plain_rules_read_them() {
    let ps_pieces = ["\n", " ", "1", "22", "x", "/", "usr/bin/", "Google Chrome", "Slack", "  ", "\t"];
    let log_pieces =
        ["\n", " ", "ALLOW", "kTCCServiceMicrophone", "identifier=", "us.zoom", ",", "x", "DENY", "a.b"];
    let mut pieces = Pieces { state: 11 };
    for _ in 0..4000 {
        let listing = pieces.text(&ps_pieces, 24);
        let outcome = CommandOutcome::Ran { success: true, stdout: listing.clone() };
        let got: Vec<(String, u32)> =
            get_running_processes(&outcome).into_iter().map(|p| (p.name, p.pid)).collect();
        assert_eq!(got, processes_rule(&listing), "{:?}", listing);
        let log = pieces.text(&log_pieces, 24);
        assert_eq!(apps_in_microphone_log(&log), log_rule(&log), "{:?}", log);
    }
}

fn linux_rule(os_release: Option<&str>, uname: Option<&str>) -> String {
    if let Some(content) = os_release {
        let mut name = String::new();
        let mut version = String::new();
        for line in content.lines() {
            if line.starts_with("PRETTY_NAME=") {
                name = line.replace("PRETTY_NAME=", "").trim_matches('"').to_string();
            } else if line.starts_with("VERSION=") {
                version = line.replace("VERSION=", "").trim_matches('"').to_string();
            }
        }
        if !name.is_empty() {
            return name;
        }
        if !version.is_empty() {
            return format!("Linux {}", version);
        }
    }
    if let Some(text) = uname {
        return text.trim().to_string();
    }
    "Linux (version unknown)".to_string()
}

fn windows_rule(ver: Option<&str>, wmic: Option<&str>) -> String {
    if let Some(text) = ver {
        if !text.trim().is_empty() {
            return text.trim().to_string();
        }
    }
    if let Some(info) = wmic {
        let mut caption = String::new();
        let mut version = String::new();
        for line in info.lines() {
            if line.starts_with("Caption=") {
                caption = line.replace("Caption=", "").trim().to_string();
            } else if line.starts_with("Version=") {
                version = line.replace("Version=", "").trim().to_string();
            }
        }
        if !caption.is_empty() || !version.is_empty() {
            return format!("{} (Build {})", caption, version);
        }
    }
    "Windows (version unknown)".to_string()
}

fn macos_rule(sw_vers: Option<&str>) -> String {
    if let Some(text) = sw_vers {
        let mut name = String::new();
        let mut version = String::new();
        for line in text.lines() {
            if line.starts_with("ProductName:") {
                name = line.replace("ProductName:", "").trim().to_string();
            } else if line.starts_with("ProductVersion:") {
                version = line.replace("ProductVersion:", "").trim().to_string();
            }
        }
        if !name.is_empty() && !version.is_empty() {
            return format!("{} {}", name, version);
        }
    }
    "macOS (version unknown)".to_string()
}

#[test]
fn versions_are_read_as_plain_rules_read_them() {
    let parts = [
        "\n", "\r\n", " ", "\"", "PRETTY_NAME=", "VERSION=", "Caption=", "Version=", "ProductName:",
        "ProductVersion:", "Debian", "12", "\t", "x=",
    ];
    let mut pieces = Pieces { state: 5 };
    for _ in 0..3000 {
        let first = pieces.text(&parts, 12);
        let second = pieces.text(&parts, 12);
        let one = if pieces.next() % 4 == 0 { None } else { Some(first.as_str()) };
        let two = if pieces.next() % 4 == 0 { None } else { Some(second.as_str()) };
        assert_eq!(get_linux_version(one, two), linux_rule(one, two), "{:?} {:?}", one, two);
        assert_eq!(get_windows_version(one, two), windows_rule(one, two), "{:?} {:?}", one, two);
        assert_eq!(get_macos_version(one), macos_rule(one), "{:?}", one);
    }
}
