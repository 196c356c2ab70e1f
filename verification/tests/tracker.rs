use call_validator::network_monitor::{
    address_qualifies, is_media_port_number, lsof_line_process, netstat_line_process,
    process_label, ss_line_process, NetworkMonitor, TableFormat, WebRTCSignal, STALE_AFTER,
};
use call_validator::platform::PlatformUtils;

const SECOND: u64 = 1_000_000_000;

struct Named;

impl PlatformUtils for Named {
    fn get_process_name(pid: u32) -> Result<String, String> {
        Ok(format!("proc{}", pid))
    }

    fn get_window_title(_pid: u32) -> Result<String, String> {
        Ok(String::new())
    }
}

struct Nameless;

impl PlatformUtils for Nameless {
    fn get_process_name(_pid: u32) -> Result<String, String> {
        Err("gone".to_string())
    }

    fn get_window_title(_pid: u32) -> Result<String, String> {
        Err("gone".to_string())
    }
}

fn chars(s: &str) -> Vec<char> {
    s.chars().collect()
}

fn sorted_pids(signals: &[WebRTCSignal]) -> Vec<u32> {
    let mut pids: Vec<u32> = signals.iter().map(|s| s.process_id).collect();
    pids.sort();
    pids
}

const SS_TABLE: &str = "State  Recv-Q Send-Q Local Address:Port Peer Address:Port Process\n\
UNCONN 0      0      0.0.0.0:12345      0.0.0.0:*     users:((\"chrome\",pid=1234,fd=56))\n\
UNCONN 0      0      0.0.0.0:53         0.0.0.0:*     users:((\"named\",pid=77,fd=5))\n\
UNCONN 0      0      [::]:3478          [::]:*        users:((\"zoom\",pid=4321,fd=9))\n\
UNCONN 0      0      0.0.0.0:40000      0.0.0.0:*     users:((\"chrome\",pid=1234,fd=57))\n\
UNCONN 0      0      0.0.0.0:50000      0.0.0.0:*\n";

#[test]
fn media_ports_are_the_stun_ports_and_the_high_range() {
    assert!(is_media_port_number(3478));
    assert!(is_media_port_number(19302));
    assert!(is_media_port_number(5349));
    assert!(is_media_port_number(10000));
    assert!(is_media_port_number(65535));
    assert!(!is_media_port_number(9999));
    assert!(!is_media_port_number(0));
    assert!(!is_media_port_number(443));
    assert!(!is_media_port_number(65536));
}

#[test]
fn the_port_is_what_follows_the_last_colon() {
    let monitor = NetworkMonitor::new();
    assert!(monitor.is_webrtc_port("0.0.0.0:12345"));
    assert!(monitor.is_webrtc_port("[::1]:3478"));
    assert!(monitor.is_webrtc_port("*:19302"));
    assert!(monitor.is_webrtc_port("5349"));
    assert!(monitor.is_webrtc_port("host:+10000"));
    assert!(!monitor.is_webrtc_port("0.0.0.0:80"));
    assert!(!monitor.is_webrtc_port("0.0.0.0:*"));
    assert!(!monitor.is_webrtc_port("0.0.0.0:"));
    assert!(!monitor.is_webrtc_port(""));
    assert!(!monitor.is_webrtc_port("0.0.0.0:65536"));
    assert!(!monitor.is_webrtc_port("0.0.0.0:12345 "));
    assert!(address_qualifies(&chars("a:b:010000")));
}

#[test]
fn ss_lines_give_the_process_of_a_qualifying_endpoint() {
    let line = "UNCONN 0 0 0.0.0.0:12345 0.0.0.0:* users:((\"chrome\",pid=1234,fd=56))";
    assert_eq!(ss_line_process(&chars(line)), Some(1234));
    let low = "UNCONN 0 0 0.0.0.0:53 0.0.0.0:* users:((\"named\",pid=77,fd=5))";
    assert_eq!(ss_line_process(&chars(low)), None);
    let no_users = "UNCONN 0 0 0.0.0.0:12345 0.0.0.0:*";
    assert_eq!(ss_line_process(&chars(no_users)), None);
    let zero = "UNCONN 0 0 0.0.0.0:12345 0.0.0.0:* users:((\"x\",pid=0,fd=1))";
    assert_eq!(ss_line_process(&chars(zero)), None);
    let few = "UNCONN 0 0 0.0.0.0:12345";
    assert_eq!(ss_line_process(&chars(few)), None);
    let few = "0 0 0.0.0.0:12345 users:((\"x\",pid=9,fd=1))";
    assert_eq!(ss_line_process(&chars(few)), None);
    let spaced = "UNCONN 0 0 0.0.0.0:12345 0.0.0.0:* users:((\"x\",pid= 42 ,fd=1))";
    assert_eq!(ss_line_process(&chars(spaced)), Some(42));
    let no_pid = "UNCONN 0 0 0.0.0.0:12345 0.0.0.0:* users:((\"x\",fd=1))";
    assert_eq!(ss_line_process(&chars(no_pid)), None);
    let last = "UNCONN 0 0 0.0.0.0:12345 0.0.0.0:* users:((\"x\",pid=88";
    assert_eq!(ss_line_process(&chars(last)), Some(88));
    let peer = "ESTAB 0 0 10.0.0.2:999 74.125.1.1:19302 users:((\"x\",pid=5,fd=1))";
    assert_eq!(ss_line_process(&chars(peer)), None);
    let local = "ESTAB 0 0 10.0.0.2:19302 74.125.1.1:443 users:((\"x\",pid=5,fd=1))";
    assert_eq!(ss_line_process(&chars(local)), Some(5));
}

#[test]
fn netstat_lines_give_the_process_in_the_last_column() {
    assert_eq!(netstat_line_process(&chars("  UDP    0.0.0.0:50000    *:*    4242")), Some(4242));
    assert_eq!(netstat_line_process(&chars("  UDP    0.0.0.0:500    *:*    4242")), None);
    assert_eq!(netstat_line_process(&chars("  TCP    0.0.0.0:50000    *:*    4242")), None);
    assert_eq!(netstat_line_process(&chars("  UDP    0.0.0.0:50000    *:*    0")), None);
    assert_eq!(netstat_line_process(&chars("  UDP    0.0.0.0:50000    4242")), None);
    assert_eq!(netstat_line_process(&chars("  UDP    0.0.0.0:50000    *:*    x")), None);
    assert_eq!(netstat_line_process(&chars("")), None);
}

#[test]
fn lsof_lines_give_the_process_in_the_second_column() {
    let line = "chrome  1234  user  56u  IPv4  0x123456  0t0  UDP *:12345";
    assert_eq!(lsof_line_process(&chars(line)), Some(1234));
    let low = "mDNSResp  300  user  6u  IPv4  0x1  0t0  UDP *:5353";
    assert_eq!(lsof_line_process(&chars(low)), None);
    let short = "chrome  1234  user  56u  IPv4  0x123456  UDP *:12345";
    assert_eq!(lsof_line_process(&chars(short)), None);
    let heading = "COMMAND PID USER FD TYPE DEVICE SIZE/OFF NODE NAME";
    assert_eq!(lsof_line_process(&chars(heading)), None);
    let zero = "kernel  0  root  56u  IPv4  0x123456  0t0  UDP *:12345";
    assert_eq!(lsof_line_process(&chars(zero)), None);
}

#[test]
fn a_new_monitor_tracks_nothing() {
    let mut monitor = NetworkMonitor::new();
    assert!(!monitor.has_webrtc_activity(1));
    assert!(monitor.get_signal_for_process(1).is_none());
    assert!(monitor.get_webrtc_signals::<Named>(TableFormat::Ss, None, 0).is_empty());
}

#[test]
fn the_first_endpoint_creates_a_signal_and_the_next_ones_count() {
    let mut monitor = NetworkMonitor::new();
    monitor.update_or_create_signal::<Named>(7, 5 * SECOND);
    let signal = monitor.get_signal_for_process(7).unwrap();
    assert_eq!(signal.process_id, 7);
    assert_eq!(signal.process_name, "proc7");
    assert_eq!(signal.connection_count, 1);
    assert_eq!(signal.last_seen, 5 * SECOND);
    assert_eq!(signal.started_at, 5 * SECOND);
    assert!(signal.has_stun_traffic);
    assert!(signal.has_media_traffic);
    assert!(signal.remote_ips.is_empty());
    monitor.update_or_create_signal::<Nameless>(7, 6 * SECOND);
    let signal = monitor.get_signal_for_process(7).unwrap();
    assert_eq!(signal.process_name, "proc7");
    assert_eq!(signal.connection_count, 2);
    assert_eq!(signal.last_seen, 6 * SECOND);
    assert_eq!(signal.started_at, 5 * SECOND);
    assert!(!monitor.has_webrtc_activity(8));
}

#[test]
fn a_process_without_a_name_gets_a_label() {
    let mut monitor = NetworkMonitor::new();
    monitor.update_or_create_signal::<Nameless>(4021, SECOND);
    assert_eq!(monitor.get_signal_for_process(4021).unwrap().process_name, "Process_4021");
    assert_eq!(process_label(0, Err("x".to_string())), "Process_0");
    assert_eq!(process_label(4294967295, Err(String::new())), "Process_4294967295");
    assert_eq!(process_label(5, Ok("zoom".to_string())), "zoom");
}

#[test]
fn a_table_is_read_after_its_heading() {
    let mut monitor = NetworkMonitor::new();
    let signals = monitor.get_webrtc_signals::<Named>(TableFormat::Ss, Some(SS_TABLE), 3 * SECOND);
    assert_eq!(sorted_pids(&signals), vec![1234, 4321]);
    assert_eq!(monitor.get_signal_for_process(1234).unwrap().connection_count, 2);
    assert_eq!(monitor.get_signal_for_process(4321).unwrap().connection_count, 1);
    assert!(!monitor.has_webrtc_activity(77));
    let again = monitor.get_webrtc_signals::<Named>(TableFormat::Ss, Some(SS_TABLE), 4 * SECOND);
    assert_eq!(again.len(), 2);
    let chrome = monitor.get_signal_for_process(1234).unwrap();
    assert_eq!(chrome.connection_count, 4);
    assert_eq!(chrome.started_at, 3 * SECOND);
    assert_eq!(chrome.last_seen, 4 * SECOND);
}

#[test]
fn the_heading_is_never_read() {
    let mut monitor = NetworkMonitor::new();
    let one_line = "UNCONN 0 0 0.0.0.0:12345 0.0.0.0:* users:((\"x\",pid=5,fd=1))";
    monitor.scan_network_connections::<Named>(TableFormat::Ss, one_line, SECOND);
    assert!(!monitor.has_webrtc_activity(5));
    let netstat = "\nActive Connections\n\n  Proto  Local Address  Foreign Address  State  PID\n  UDP    0.0.0.0:50000    *:*    4242\r\n  UDP    0.0.0.0:50001    *:*    4243\r\n";
    monitor.scan_network_connections::<Named>(TableFormat::Netstat, netstat, SECOND);
    assert!(monitor.has_webrtc_activity(4242));
    assert!(monitor.has_webrtc_activity(4243));
    let early = "  UDP    0.0.0.0:50000    *:*    1\n  UDP    0.0.0.0:50000    *:*    2\n  UDP    0.0.0.0:50000    *:*    3\n  UDP    0.0.0.0:50000    *:*    4\n";
    monitor.scan_network_connections::<Named>(TableFormat::Netstat, early, SECOND);
    assert!(!monitor.has_webrtc_activity(4));
    let lsof = "COMMAND PID USER FD TYPE DEVICE SIZE/OFF NODE NAME\nchrome 900 u 5u IPv4 0x1 0t0 UDP *:3478\n";
    monitor.scan_network_connections::<Named>(TableFormat::Lsof, lsof, SECOND);
    assert!(monitor.has_webrtc_activity(900));
}

#[test]
fn lines_are_read_one_by_one() {
    let mut monitor = NetworkMonitor::new();
    monitor.parse_ss_line::<Named>(
        "UNCONN 0 0 0.0.0.0:12345 0.0.0.0:* users:((\"x\",pid=5,fd=1))",
        SECOND,
    );
    monitor.parse_netstat_line::<Named>("UDP 0.0.0.0:50000 *:* 6", SECOND);
    monitor.parse_lsof_line::<Named>("chrome 7 u 5u IPv4 0x1 0t0 UDP *:3478", SECOND);
    monitor.parse_lsof_line::<Named>("chrome 8 u 5u IPv4 0x1 0t0 UDP *:80", SECOND);
    assert!(monitor.has_webrtc_activity(5));
    assert!(monitor.has_webrtc_activity(6));
    assert!(monitor.has_webrtc_activity(7));
    assert!(!monitor.has_webrtc_activity(8));
}

#[test]
fn a_signal_survives_until_it_is_ten_seconds_old() {
    assert_eq!(STALE_AFTER, 10 * SECOND);
    let mut monitor = NetworkMonitor::new();
    monitor.update_or_create_signal::<Named>(7, 100 * SECOND);
    let kept = monitor.get_webrtc_signals::<Named>(TableFormat::Ss, None, 109_900_000_000);
    assert_eq!(sorted_pids(&kept), vec![7]);
    assert!(monitor.has_webrtc_activity(7));
    let kept = monitor.get_webrtc_signals::<Named>(TableFormat::Ss, None, 109_999_999_999);
    assert_eq!(kept.len(), 1);
    let gone = monitor.get_webrtc_signals::<Named>(TableFormat::Ss, None, 110 * SECOND);
    assert!(gone.is_empty());
    assert!(!monitor.has_webrtc_activity(7));
    monitor.update_or_create_signal::<Named>(8, 100 * SECOND);
    let gone = monitor.get_webrtc_signals::<Named>(TableFormat::Ss, None, 110_100_000_000);
    assert!(gone.is_empty());
    assert!(!monitor.has_webrtc_activity(8));
}

#[test]
fn a_clock_that_ran_backwards_makes_nothing_stale() {
    let mut monitor = NetworkMonitor::new();
    monitor.update_or_create_signal::<Named>(7, 100 * SECOND);
    let kept = monitor.get_webrtc_signals::<Named>(TableFormat::Ss, None, 50 * SECOND);
    assert_eq!(kept.len(), 1);
    assert_eq!(kept[0].last_seen, 100 * SECOND);
}

#[test]
fn a_poll_refreshes_what_it_sees_and_drops_the_rest() {
    let mut monitor = NetworkMonitor::new();
    monitor.update_or_create_signal::<Named>(1234, 100 * SECOND);
    monitor.update_or_create_signal::<Named>(9, 100 * SECOND);
    let signals =
        monitor.get_webrtc_signals::<Named>(TableFormat::Ss, Some(SS_TABLE), 115 * SECOND);
    assert_eq!(sorted_pids(&signals), vec![1234, 4321]);
    let chrome = monitor.get_signal_for_process(1234).unwrap();
    assert_eq!(chrome.connection_count, 3);
    assert_eq!(chrome.started_at, 100 * SECOND);
    assert_eq!(chrome.last_seen, 115 * SECOND);
    assert!(!monitor.has_webrtc_activity(9));
}

#[test]
fn a_copy_of_a_signal_holds_the_same() {
    let signal = WebRTCSignal {
        process_id: 3,
        process_name: "zoom".to_string(),
        remote_ips: vec!["10.0.0.1".to_string(), "10.0.0.2".to_string()],
        has_stun_traffic: true,
        has_media_traffic: false,
        connection_count: 4,
        last_seen: 9,
        started_at: 2,
    };
    let copy = signal.clone();
    assert_eq!(copy.process_id, 3);
    assert_eq!(copy.process_name, "zoom");
    assert_eq!(copy.remote_ips, vec!["10.0.0.1".to_string(), "10.0.0.2".to_string()]);
    assert!(copy.has_stun_traffic);
    assert!(!copy.has_media_traffic);
    assert_eq!(copy.connection_count, 4);
    assert_eq!(copy.last_seen, 9);
    assert_eq!(copy.started_at, 2);
}
