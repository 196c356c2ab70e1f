use call_validator::platform::linux::{
    argument_title, extract_domain, get_title_from_cmdline, get_window_title_wayland,
    get_window_title_wmctrl, is_wayland_session, ProcFailure, TitleSource, TitleStep,
};
use call_validator::platform::{linux, macos, CommandOutcome, TargetOs};

fn ran(stdout: &str) -> CommandOutcome {
    CommandOutcome::Ran { success: true, stdout: stdout.to_string() }
}

fn failed(stdout: &str) -> CommandOutcome {
    CommandOutcome::Ran { success: false, stdout: stdout.to_string() }
}

fn not_run() -> CommandOutcome {
    CommandOutcome::NotRun("No such file or directory".to_string())
}

fn found(step: TitleStep) -> Option<String> {
    match step {
        TitleStep::Found(title) => Some(title),
        _ => None,
    }
}

fn next(step: TitleStep) -> Option<TitleSource> {
    match step {
        TitleStep::Try(source) => Some(source),
        _ => None,
    }
}

#[test]
fn only_three_systems_are_supported() {
    assert!(TargetOs::Windows.supported());
    assert!(TargetOs::Linux.supported());
    assert!(TargetOs::MacOs.supported());
    assert!(!TargetOs::Other.supported());
}

#[test]
fn a_command_shows_its_output() {
    assert_eq!(ran("x").successful_stdout(), Some("x"));
    assert_eq!(failed("x").successful_stdout(), None);
    assert_eq!(not_run().successful_stdout(), None);
    assert_eq!(ran("x").stdout(), Some("x"));
    assert_eq!(failed("x").stdout(), Some("x"));
    assert_eq!(not_run().stdout(), None);
}

#[test]
fn linux_process_name_is_the_command_name() {
    assert_eq!(linux::get_process_name(12, Ok("chrome".to_string())), Ok("chrome".to_string()));
    assert_eq!(
        linux::get_process_name(12, Err(ProcFailure::Open("gone".to_string()))),
        Err("Failed to read process 12: gone".to_string())
    );
    assert_eq!(
        linux::get_process_name(12, Err(ProcFailure::Stat("denied".to_string()))),
        Err("Failed to read process stat: denied".to_string())
    );
}

#[test]
fn the_search_for_a_title_begins_with_the_x_server() {
    assert_eq!(TitleSource::first(), TitleSource::X11);
}

#[test]
fn the_search_for_a_title_goes_from_place_to_place() {
    let ok = |s: &str| Ok(s.to_string());
    let err = || Err("no".to_string());
    assert_eq!(found(linux::get_window_title(TitleSource::X11, ok("Inbox"))), Some("Inbox".to_string()));
    assert_eq!(
        next(linux::get_window_title(TitleSource::X11, ok("Window not found for PID"))),
        Some(TitleSource::Wayland)
    );
    assert_eq!(next(linux::get_window_title(TitleSource::X11, ok(""))), Some(TitleSource::Wayland));
    assert_eq!(next(linux::get_window_title(TitleSource::X11, err())), Some(TitleSource::Wayland));
    assert_eq!(
        found(linux::get_window_title(TitleSource::Wayland, ok("Window not found for PID"))),
        Some("Window not found for PID".to_string())
    );
    assert_eq!(next(linux::get_window_title(TitleSource::Wayland, ok(""))), Some(TitleSource::Wmctrl));
    assert_eq!(next(linux::get_window_title(TitleSource::Wayland, err())), Some(TitleSource::Wmctrl));
    assert_eq!(found(linux::get_window_title(TitleSource::Wmctrl, ok("t"))), Some("t".to_string()));
    assert_eq!(next(linux::get_window_title(TitleSource::Wmctrl, err())), Some(TitleSource::Cmdline));
    assert_eq!(found(linux::get_window_title(TitleSource::Cmdline, ok("t"))), Some("t".to_string()));
    assert_eq!(
        next(linux::get_window_title(TitleSource::Cmdline, ok(""))),
        Some(TitleSource::ProcessName)
    );
    assert_eq!(found(linux::get_window_title(TitleSource::ProcessName, ok(""))), Some(String::new()));
    match linux::get_window_title(TitleSource::ProcessName, err()) {
        TitleStep::Failed(reason) => assert_eq!(reason, "no"),
        other => panic!("unexpected step: {:?}", other),
    }
}

#[test]
fn the_domain_of_a_url_is_its_host() {
    assert_eq!(extract_domain("https://meet.google.com/abc-defg"), "meet.google.com");
    assert_eq!(extract_domain("https://zoom.us"), "zoom.us");
    assert_eq!(extract_domain("zoom.us/j/1"), "zoom.us/j/1");
    assert_eq!(extract_domain("a://b://c/d"), "b:");
    assert_eq!(extract_domain("://"), "");
    assert_eq!(extract_domain(""), "");
    assert_eq!(extract_domain("--url=https://teams.microsoft.com/l/x"), "teams.microsoft.com");
}

#[test]
fn an_argument_may_give_a_title() {
    let title = |arg: &str| {
        let cs: Vec<char> = arg.chars().collect();
        argument_title(&cs).map(|t| t.iter().collect::<String>())
    };
    assert_eq!(title("https://meet.google.com/abc"), Some("Meeting: meet.google.com".to_string()));
    assert_eq!(title("zoom.us"), Some("Meeting: zoom.us".to_string()));
    assert_eq!(title("--app=Slack"), Some("Slack".to_string()));
    assert_eq!(title("--app=a--app=b"), Some("a".to_string()));
    assert_eq!(title("--app="), Some(String::new()));
    assert_eq!(title("--title=My Window"), Some("My Window".to_string()));
    assert_eq!(title("--name=a=b"), Some("a".to_string()));
    assert_eq!(title("x=1 --title=t"), Some("1 --title".to_string()));
    assert_eq!(title("--verbose"), None);
    assert_eq!(title(""), None);
}

#[test]
fn a_command_line_gives_a_title() {
    let ok = |s: &str| Ok(s.to_string());
    assert_eq!(get_title_from_cmdline(Some("/usr/bin/slack\0--app=Slack\0")), ok("Slack"));
    assert_eq!(
        get_title_from_cmdline(Some("/opt/chrome\0--type=x\0https://meet.google.com/abc\0")),
        ok("Meeting: meet.google.com")
    );
    assert_eq!(get_title_from_cmdline(Some("/usr/lib/firefox/firefox\0-P\0")), ok("firefox"));
    assert_eq!(get_title_from_cmdline(Some("\0\0vlc\0")), ok("vlc"));
    assert_eq!(get_title_from_cmdline(Some("dir/\0x")), ok(""));
    assert_eq!(get_title_from_cmdline(Some("a\0--name=n\0--app=p")), ok("n"));
    let error = Err("Could not extract title from cmdline".to_string());
    assert_eq!(get_title_from_cmdline(Some("")), error);
    assert_eq!(get_title_from_cmdline(Some("\0\0")), error);
    assert_eq!(get_title_from_cmdline(None), error);
}

#[test]
fn wayland_is_seen_in_the_environment() {
    assert!(is_wayland_session("HOME=/root\0WAYLAND_DISPLAY=wayland-0\0"));
    assert!(is_wayland_session("GDK_BACKEND=x11\0X=WAYLAND_DISPLAY"));
    assert!(!is_wayland_session("X=WAYLAND_DISPLAY\0Y=GDK_BACKEND"));
    assert!(!is_wayland_session("GDK_BACKEND=x11\0DISPLAY=:0"));
    assert!(!is_wayland_session(""));
    let error = Err("Not running under Wayland or info unavailable".to_string());
    assert_eq!(get_window_title_wayland(None, Some("vlc\0")), error);
    assert_eq!(get_window_title_wayland(Some("DISPLAY=:0"), Some("vlc\0")), error);
    assert_eq!(
        get_window_title_wayland(Some("WAYLAND_DISPLAY=w"), Some("/usr/bin/vlc\0")),
        Ok("vlc".to_string())
    );
    assert_eq!(
        get_window_title_wayland(Some("WAYLAND_DISPLAY=w"), None),
        Err("Could not extract title from cmdline".to_string())
    );
}

#[test]
fn wmctrl_lists_windows_with_their_processes() {
    let listing = "0x01 0 100 host Terminal\n0x02 0 4242 host  Team   Sync - Meeting \n0x03 0 4242 host Other\n0x04 0 77 host\n";
    assert_eq!(get_window_title_wmctrl(&ran(listing), 4242), Ok("Team Sync - Meeting".to_string()));
    assert_eq!(get_window_title_wmctrl(&ran(listing), 100), Ok("Terminal".to_string()));
    let error = Err("wmctrl not available or window not found".to_string());
    assert_eq!(get_window_title_wmctrl(&ran(listing), 77), error);
    assert_eq!(get_window_title_wmctrl(&ran(listing), 5), error);
    assert_eq!(get_window_title_wmctrl(&failed(listing), 100), error);
    assert_eq!(get_window_title_wmctrl(&not_run(), 100), error);
    assert_eq!(get_window_title_wmctrl(&ran(""), 100), error);
}

#[test]
fn mac_process_name_is_the_last_path_component() {
    assert_eq!(
        macos::get_process_name(5, &ran("  /Applications/zoom.us.app/Contents/MacOS/zoom.us\n")),
        Ok("zoom.us".to_string())
    );
    assert_eq!(macos::get_process_name(5, &ran("launchd\n")), Ok("launchd".to_string()));
    assert_eq!(macos::get_process_name(5, &ran("dir/\n")), Ok(String::new()));
    assert_eq!(macos::get_process_name(5, &ran(" \n")), Err("Process 5 not found".to_string()));
    assert_eq!(macos::get_process_name(77, &failed("x")), Err("Process 77 not found".to_string()));
    assert_eq!(
        macos::get_process_name(5, &not_run()),
        Err("Failed to execute ps: No such file or directory".to_string())
    );
}

#[test]
fn mac_window_title_is_what_the_script_answers() {
    let name = || Ok("zoom.us".to_string());
    assert_eq!(macos::get_window_title(name(), &ran(" Zoom Meeting \n")), Ok("Zoom Meeting".to_string()));
    assert_eq!(macos::get_window_title(name(), &ran("missing value\n")), Ok("zoom.us".to_string()));
    assert_eq!(macos::get_window_title(name(), &ran("\n")), Ok("zoom.us".to_string()));
    assert_eq!(macos::get_window_title(name(), &failed("Title")), Ok("zoom.us".to_string()));
    assert_eq!(macos::get_window_title(name(), &not_run()), Ok("zoom.us".to_string()));
    assert_eq!(
        macos::get_window_title(Err("Process 5 not found".to_string()), &ran("Title")),
        Err("Process 5 not found".to_string())
    );
}

#[test]
fn the_title_script_names_process_and_fallback() {
    let script = macos::window_title_script(4242, "zoom.us");
    let expected = format!(
        r#"
        tell application "System Events"
            try
                set appName to name of first process whose unix id is {}
                tell process appName
                    try
                        set windowTitle to name of front window
                        return windowTitle
                    on error
                        return appName
                    end try
                end tell
            on error
                return "{}"
            end try
        end tell
        "#,
        4242, "zoom.us"
    );
    assert_eq!(script, expected);
}
