use call_validator::system_info::{
    arch_name_of, family_name_of, get_linux_version, get_macos_version, get_os_info,
    get_platform_specific_info, get_windows_version, keyed_value, os_name_of, release_suffices,
    ver_suffices, Strip,
};

fn value(text: &str, key: &str, strip: Strip) -> String {
    keyed_value(text, key, strip).iter().collect()
}

#[test]
fn systems_are_shown_by_name() {
    let pairs = [
        ("windows", "Windows"),
        ("macos", "macOS"),
        ("linux", "Linux"),
        ("freebsd", "FreeBSD"),
        ("openbsd", "OpenBSD"),
        ("netbsd", "NetBSD"),
        ("dragonfly", "DragonFly BSD"),
        ("android", "Android"),
        ("ios", "iOS"),
        ("solaris", "Solaris"),
        ("illumos", "illumos"),
        ("redox", "Redox"),
        ("fuchsia", "Fuchsia"),
        ("haiku", "Haiku"),
        ("plan9", "plan9"),
        ("", ""),
    ];
    for (os, shown) in pairs {
        assert_eq!(os_name_of(os), shown);
    }
}

#[test]
fn processors_are_shown_by_kind() {
    let pairs = [
        ("x86_64", "64-bit (x86_64)"),
        ("x86", "32-bit (x86)"),
        ("aarch64", "64-bit ARM (aarch64)"),
        ("arm", "32-bit ARM"),
        ("powerpc64", "PowerPC 64-bit"),
        ("powerpc", "PowerPC 32-bit"),
        ("mips64", "MIPS 64-bit"),
        ("mips", "MIPS 32-bit"),
        ("riscv64", "RISC-V 64-bit"),
        ("s390x", "IBM S390x"),
        ("sparc64", "SPARC 64-bit"),
        ("wasm32", "wasm32"),
    ];
    for (arch, shown) in pairs {
        assert_eq!(arch_name_of(arch), shown);
    }
    assert_eq!(family_name_of("unix"), "Unix-like");
    assert_eq!(family_name_of("windows"), "Windows");
    assert_eq!(family_name_of("wasm"), "wasm");
}

#[test]
fn the_version_is_shown_for_the_systems_that_are_asked() {
    assert_eq!(get_platform_specific_info("linux", "Debian 12".to_string()), "Debian 12");
    assert_eq!(get_platform_specific_info("windows", "10".to_string()), "10");
    assert_eq!(get_platform_specific_info("macos", "14".to_string()), "14");
    assert_eq!(
        get_platform_specific_info("freebsd", "14".to_string()),
        "freebsd (version detection not implemented)"
    );
    let info = get_os_info("linux", "x86_64", "unix", "Debian 12".to_string());
    assert_eq!(info.os_name, "Linux");
    assert_eq!(info.arch, "64-bit (x86_64)");
    assert_eq!(info.family, "Unix-like");
    assert_eq!(info.platform_details, "Debian 12");
}

#[test]
fn the_last_line_with_the_key_gives_the_value() {
    let text = "NAME=\"Debian\"\nVERSION=\"11\"\nPRETTY_NAME=\"Debian GNU/Linux 12\"\nVERSION=\"12 (bookworm)\"\n";
    assert_eq!(value(text, "PRETTY_NAME=", Strip::Quotes), "Debian GNU/Linux 12");
    assert_eq!(value(text, "VERSION=", Strip::Quotes), "12 (bookworm)");
    assert_eq!(value(text, "ID=", Strip::Quotes), "");
    assert_eq!(value("K= a K=b \r\n", "K=", Strip::Space), "a b");
    assert_eq!(value(" K=1\nK=2\n K=3", "K=", Strip::Space), "2");
    assert_eq!(value("K=\"\"x\"\"", "K=", Strip::Quotes), "x");
    assert_eq!(value("K= \"x\" ", "K=", Strip::Quotes), " \"x\" ");
}

#[test]
fn the_version_of_windows() {
    assert_eq!(
        get_windows_version(Some("\r\nMicrosoft Windows [Version 10.0.19045]\r\n"), None),
        "Microsoft Windows [Version 10.0.19045]"
    );
    let wmic = "\r\n\r\nCaption=Microsoft Windows 11 Pro\r\nVersion=10.0.22631\r\n\r\n";
    assert_eq!(
        get_windows_version(Some("  \r\n"), Some(wmic)),
        "Microsoft Windows 11 Pro (Build 10.0.22631)"
    );
    assert_eq!(get_windows_version(None, Some("Version=7\n")), " (Build 7)");
    assert_eq!(get_windows_version(None, Some("Caption=W\n")), "W (Build )");
    assert_eq!(get_windows_version(None, Some("nothing")), "Windows (version unknown)");
    assert_eq!(get_windows_version(None, None), "Windows (version unknown)");
    assert!(ver_suffices(Some(" 10 ")));
    assert!(!ver_suffices(Some(" \r\n")));
    assert!(!ver_suffices(None));
}

#[test]
fn the_version_of_linux() {
    let release = "PRETTY_NAME=\"Ubuntu 22.04.3 LTS\"\nNAME=\"Ubuntu\"\nVERSION=\"22.04.3 LTS\"\n";
    assert_eq!(get_linux_version(Some(release), Some("Linux host 6.1")), "Ubuntu 22.04.3 LTS");
    assert_eq!(get_linux_version(Some("VERSION=\"9\"\n"), None), "Linux 9");
    assert_eq!(get_linux_version(Some("NAME=x\n"), Some(" Linux host 6.1 \n")), "Linux host 6.1");
    assert_eq!(get_linux_version(None, Some("")), "");
    assert_eq!(get_linux_version(Some(""), None), "Linux (version unknown)");
    assert_eq!(get_linux_version(None, None), "Linux (version unknown)");
    assert!(release_suffices(Some(release)));
    assert!(release_suffices(Some("VERSION=9\n")));
    assert!(!release_suffices(Some("NAME=x\nPRETTY_NAME=\"\"\n")));
    assert!(!release_suffices(None));
}

#[test]
fn the_version_of_macos() {
    let sw_vers = "ProductName:\t\tmacOS\nProductVersion:\t\t14.5\nBuildVersion:\t\t23F79\n";
    assert_eq!(get_macos_version(Some(sw_vers)), "macOS 14.5");
    assert_eq!(get_macos_version(Some("ProductName: macOS\n")), "macOS (version unknown)");
    assert_eq!(get_macos_version(Some("ProductVersion: 14\n")), "macOS (version unknown)");
    assert_eq!(get_macos_version(None), "macOS (version unknown)");
}
