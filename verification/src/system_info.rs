//! What is shown of the operating system at start: its name, the kind of
//! processor, and the version that its tools report.

use vstd::prelude::*;
use crate::fields::{
    append_chars, has_prefix, lines, remove_all, slice_of, spans_cover, split_lines, starts_with,
    stripped_of, trim, trim_matches, trimmed, without,
};
use crate::text::{chars_of, same_text, string_of};

verus! {

/// What is shown of the operating system.
#[derive(Debug)]
pub struct OSInfo {
    pub os_name: String,
    pub arch: String,
    pub family: String,
    pub platform_details: String,
}

/// What an `OSInfo` holds, as character sequences.
pub struct OSInfoView {
    pub os_name: Seq<char>,
    pub arch: Seq<char>,
    pub family: Seq<char>,
    pub platform_details: Seq<char>,
}

impl View for OSInfo {
    type V = OSInfoView;

    open spec fn view(&self) -> OSInfoView {
        OSInfoView {
            os_name: self.os_name@,
            arch: self.arch@,
            family: self.family@,
            platform_details: self.platform_details@,
        }
    }
}

/// The name shown for an operating system, by the name under which the
/// compiler knows it; a name that is not known is shown as it is.
pub open spec fn os_display_name(os: Seq<char>) -> Seq<char> {
    if os == "windows"@ {
        "Windows"@
    } else if os == "macos"@ {
        "macOS"@
    } else if os == "linux"@ {
        "Linux"@
    } else if os == "freebsd"@ {
        "FreeBSD"@
    } else if os == "openbsd"@ {
        "OpenBSD"@
    } else if os == "netbsd"@ {
        "NetBSD"@
    } else if os == "dragonfly"@ {
        "DragonFly BSD"@
    } else if os == "android"@ {
        "Android"@
    } else if os == "ios"@ {
        "iOS"@
    } else if os == "solaris"@ {
        "Solaris"@
    } else if os == "illumos"@ {
        "illumos"@
    } else if os == "redox"@ {
        "Redox"@
    } else if os == "fuchsia"@ {
        "Fuchsia"@
    } else if os == "haiku"@ {
        "Haiku"@
    } else {
        os
    }
}

/// The name shown for an operating system.
pub fn os_name_of(os: &str) -> (r: String)
    ensures
        r@ == os_display_name(os@),
{
    if same_text(os, "windows") {
        "Windows".to_string()
    } else if same_text(os, "macos") {
        "macOS".to_string()
    } else if same_text(os, "linux") {
        "Linux".to_string()
    } else if same_text(os, "freebsd") {
        "FreeBSD".to_string()
    } else if same_text(os, "openbsd") {
        "OpenBSD".to_string()
    } else if same_text(os, "netbsd") {
        "NetBSD".to_string()
    } else if same_text(os, "dragonfly") {
        "DragonFly BSD".to_string()
    } else if same_text(os, "android") {
        "Android".to_string()
    } else if same_text(os, "ios") {
        "iOS".to_string()
    } else if same_text(os, "solaris") {
        "Solaris".to_string()
    } else if same_text(os, "illumos") {
        "illumos".to_string()
    } else if same_text(os, "redox") {
        "Redox".to_string()
    } else if same_text(os, "fuchsia") {
        "Fuchsia".to_string()
    } else if same_text(os, "haiku") {
        "Haiku".to_string()
    } else {
        os.to_string()
    }
}

/// The description shown for a kind of processor; a kind that is not
/// known is shown as it is.
pub open spec fn arch_display_name(arch: Seq<char>) -> Seq<char> {
    if arch == "x86_64"@ {
        "64-bit (x86_64)"@
    } else if arch == "x86"@ {
        "32-bit (x86)"@
    } else if arch == "aarch64"@ {
        "64-bit ARM (aarch64)"@
    } else if arch == "arm"@ {
        "32-bit ARM"@
    } else if arch == "powerpc64"@ {
        "PowerPC 64-bit"@
    } else if arch == "powerpc"@ {
        "PowerPC 32-bit"@
    } else if arch == "mips64"@ {
        "MIPS 64-bit"@
    } else if arch == "mips"@ {
        "MIPS 32-bit"@
    } else if arch == "riscv64"@ {
        "RISC-V 64-bit"@
    } else if arch == "s390x"@ {
        "IBM S390x"@
    } else if arch == "sparc64"@ {
        "SPARC 64-bit"@
    } else {
        arch
    }
}

/// The description shown for a kind of processor.
pub fn arch_name_of(arch: &str) -> (r: String)
    ensures
        r@ == arch_display_name(arch@),
{
    if same_text(arch, "x86_64") {
        "64-bit (x86_64)".to_string()
    } else if same_text(arch, "x86") {
        "32-bit (x86)".to_string()
    } else if same_text(arch, "aarch64") {
        "64-bit ARM (aarch64)".to_string()
    } else if same_text(arch, "arm") {
        "32-bit ARM".to_string()
    } else if same_text(arch, "powerpc64") {
        "PowerPC 64-bit".to_string()
    } else if same_text(arch, "powerpc") {
        "PowerPC 32-bit".to_string()
    } else if same_text(arch, "mips64") {
        "MIPS 64-bit".to_string()
    } else if same_text(arch, "mips") {
        "MIPS 32-bit".to_string()
    } else if same_text(arch, "riscv64") {
        "RISC-V 64-bit".to_string()
    } else if same_text(arch, "s390x") {
        "IBM S390x".to_string()
    } else if same_text(arch, "sparc64") {
        "SPARC 64-bit".to_string()
    } else {
        arch.to_string()
    }
}

/// The name shown for a family of operating systems.
pub open spec fn family_display_name(family: Seq<char>) -> Seq<char> {
    if family == "unix"@ {
        "Unix-like"@
    } else if family == "windows"@ {
        "Windows"@
    } else {
        family
    }
}

/// The name shown for a family of operating systems.
pub fn family_name_of(family: &str) -> (r: String)
    ensures
        r@ == family_display_name(family@),
{
    if same_text(family, "unix") {
        "Unix-like".to_string()
    } else if same_text(family, "windows") {
        "Windows".to_string()
    } else {
        family.to_string()
    }
}

/// The version shown for an operating system: the version that its
/// tools report, for the three systems that are asked; a notice for any
/// other.
pub open spec fn platform_details(os: Seq<char>, version: Seq<char>) -> Seq<char> {
    if os == "windows"@ || os == "linux"@ || os == "macos"@ {
        version
    } else {
        os + " (version detection not implemented)"@
    }
}

/// The version shown for the operating system `os`, where `version` is
/// what the tools of that system report.
pub fn get_platform_specific_info(os: &str, version: String) -> (r: String)
    ensures
        r@ == platform_details(os@, version@),
{
    if same_text(os, "windows") || same_text(os, "linux") || same_text(os, "macos") {
        version
    } else {
        let mut out = os.to_string();
        out.append(" (version detection not implemented)");
        out
    }
}

/// What is shown of the operating system, from the names under which
/// the compiler knows the system, the processor and the family, and from
/// the version that the tools of the system report.
pub fn get_os_info(os: &str, arch: &str, family: &str, version: String) -> (r: OSInfo)
    ensures
        r@ == (OSInfoView {
            os_name: os_display_name(os@),
            arch: arch_display_name(arch@),
            family: family_display_name(family@),
            platform_details: platform_details(os@, version@),
        }),
{
    OSInfo {
        os_name: os_name_of(os),
        arch: arch_name_of(arch),
        family: family_name_of(family),
        platform_details: get_platform_specific_info(os, version),
    }
}

/// What is taken off both ends of a value.
#[derive(Debug, Clone, Copy, PartialEq, Eq, Structural)]
pub enum Strip {
    /// White space.
    Space,
    /// Double quotes.
    Quotes,
}

/// The value that a line gives under `key`: the line without every
/// occurrence of the key, stripped at both ends.
pub open spec fn value_of(line: Seq<char>, key: Seq<char>, strip: Strip) -> Seq<char> {
    match strip {
        Strip::Space => trimmed(without(line, key)),
        Strip::Quotes => stripped_of(without(line, key), '"'),
    }
}

/// The value under `key` among the first `upto` of `lines`: that of the
/// last line that begins with the key, and the empty text where no line
/// does.
pub open spec fn last_value(lines: Seq<Seq<char>>, key: Seq<char>, strip: Strip, upto: int) -> Seq<
    char,
>
    decreases upto,
{
    if upto <= 0 {
        Seq::empty()
    } else if has_prefix(lines[upto - 1], key) {
        value_of(lines[upto - 1], key, strip)
    } else {
        last_value(lines, key, strip, upto - 1)
    }
}

/// The value that a text gives under `key`.
pub open spec fn value_in(text: Seq<char>, key: Seq<char>, strip: Strip) -> Seq<char> {
    last_value(lines(text), key, strip, lines(text).len() as int)
}

/// The value that a text gives under `key`: that of the last of its
/// lines that begins with the key.
pub fn keyed_value(text: &str, key: &str, strip: Strip) -> (r: Vec<char>)
    ensures
        r@ == value_in(text@, key@, strip),
{
    let cs = chars_of(text);
    let pattern = chars_of(key);
    let spans = split_lines(&cs);
    let ghost all = lines(cs@);
    let mut i: usize = spans.len();
    while i > 0
        invariant
            i <= spans.len(),
            cs@ == text@,
            pattern@ == key@,
            all == lines(cs@),
            spans_cover(cs@, spans@, all),
            last_value(all, key@, strip, all.len() as int) == last_value(all, key@, strip, i as int),
        decreases i,
    {
        let line = slice_of(&cs, spans[i - 1]);
        assert(line@ == all[i - 1]);
        if starts_with(&line, &pattern) {
            let bare = remove_all(&line, &pattern);
            let kept = match strip {
                Strip::Space => trim(&bare),
                Strip::Quotes => trim_matches(&bare, '"'),
            };
            return slice_of(&bare, kept);
        }
        i -= 1;
    }
    Vec::new()
}

/// The version of Windows, from what `cmd /c ver` printed and, where
/// that is nothing, from what `wmic os get Caption,Version /value`
/// printed; each is `None` where the command could not be run or printed
/// no text.
pub open spec fn windows_version(ver: Option<Seq<char>>, wmic: Option<Seq<char>>) -> Seq<char> {
    if ver matches Some(text) && trimmed(text).len() > 0 {
        trimmed(ver->0)
    } else if wmic matches Some(info) && (value_in(info, "Caption="@, Strip::Space).len() > 0
        || value_in(info, "Version="@, Strip::Space).len() > 0) {
        value_in(wmic->0, "Caption="@, Strip::Space) + " (Build "@ + value_in(
            wmic->0,
            "Version="@,
            Strip::Space,
        ) + ")"@
    } else {
        "Windows (version unknown)"@
    }
}

/// The view of an optional slice.
pub open spec fn text_view(o: Option<&str>) -> Option<Seq<char>> {
    match o {
        Some(s) => Some(s@),
        None => None,
    }
}

/// Whether what `cmd /c ver` printed tells the version of Windows, so
/// that `wmic` need not be asked.
pub fn ver_suffices(ver: Option<&str>) -> (r: bool)
    ensures
        r == (text_view(ver) matches Some(text) && trimmed(text).len() > 0),
{
    match ver {
        Some(text) => {
            let cs = chars_of(text);
            let kept = trim(&cs);
            kept.end > kept.start
        },
        None => false,
    }
}

/// The version of Windows.
pub fn get_windows_version(ver: Option<&str>, wmic: Option<&str>) -> (r: String)
    ensures
        r@ == windows_version(text_view(ver), text_view(wmic)),
{
    if let Some(text) = ver {
        let cs = chars_of(text);
        let kept = trim(&cs);
        let version = slice_of(&cs, kept);
        if version.len() > 0 {
            return string_of(&version);
        }
    }
    if let Some(info) = wmic {
        let caption = keyed_value(info, "Caption=", Strip::Space);
        let version = keyed_value(info, "Version=", Strip::Space);
        if caption.len() > 0 || version.len() > 0 {
            let mut out = caption;
            let middle = chars_of(" (Build ");
            let close = chars_of(")");
            append_chars(&mut out, &middle);
            append_chars(&mut out, &version);
            append_chars(&mut out, &close);
            return string_of(&out);
        }
    }
    "Windows (version unknown)".to_string()
}

/// The version of a Linux system, from the content of `/etc/os-release`
/// and from what `uname -a` printed; each is `None` where it could not
/// be had. The pretty name of the release is shown where there is one,
/// or else `Linux` and its version; without either, what `uname` printed.
pub open spec fn linux_version(os_release: Option<Seq<char>>, uname: Option<Seq<char>>) -> Seq<
    char,
> {
    if os_release matches Some(content) && value_in(content, "PRETTY_NAME="@, Strip::Quotes).len()
        > 0 {
        value_in(os_release->0, "PRETTY_NAME="@, Strip::Quotes)
    } else if os_release matches Some(content) && value_in(
        content,
        "VERSION="@,
        Strip::Quotes,
    ).len() > 0 {
        "Linux "@ + value_in(os_release->0, "VERSION="@, Strip::Quotes)
    } else {
        match uname {
            Some(text) => trimmed(text),
            None => "Linux (version unknown)"@,
        }
    }
}

/// Whether the content of `/etc/os-release` tells the version of the
/// system, so that `uname` need not be asked.
pub fn release_suffices(os_release: Option<&str>) -> (r: bool)
    ensures
        r == (text_view(os_release) matches Some(content) && (value_in(
            content,
            "PRETTY_NAME="@,
            Strip::Quotes,
        ).len() > 0 || value_in(content, "VERSION="@, Strip::Quotes).len() > 0)),
{
    match os_release {
        Some(content) => {
            let name = keyed_value(content, "PRETTY_NAME=", Strip::Quotes);
            let version = keyed_value(content, "VERSION=", Strip::Quotes);
            name.len() > 0 || version.len() > 0
        },
        None => false,
    }
}

/// The version of a Linux system.
pub fn get_linux_version(os_release: Option<&str>, uname: Option<&str>) -> (r: String)
    ensures
        r@ == linux_version(text_view(os_release), text_view(uname)),
{
    if let Some(content) = os_release {
        let name = keyed_value(content, "PRETTY_NAME=", Strip::Quotes);
        let version = keyed_value(content, "VERSION=", Strip::Quotes);
        if name.len() > 0 {
            return string_of(&name);
        }
        if version.len() > 0 {
            let mut out = chars_of("Linux ");
            append_chars(&mut out, &version);
            return string_of(&out);
        }
    }
    if let Some(text) = uname {
        let cs = chars_of(text);
        let kept = trim(&cs);
        let body = slice_of(&cs, kept);
        return string_of(&body);
    }
    "Linux (version unknown)".to_string()
}

/// The version of macOS, from what `sw_vers` printed, or `None` where
/// it could not be had: product name and product version, where it gives
/// both.
pub open spec fn macos_version(sw_vers: Option<Seq<char>>) -> Seq<char> {
    if sw_vers matches Some(text) && value_in(text, "ProductName:"@, Strip::Space).len() > 0
        && value_in(text, "ProductVersion:"@, Strip::Space).len() > 0 {
        value_in(sw_vers->0, "ProductName:"@, Strip::Space) + " "@ + value_in(
            sw_vers->0,
            "ProductVersion:"@,
            Strip::Space,
        )
    } else {
        "macOS (version unknown)"@
    }
}

/// The version of macOS.
pub fn get_macos_version(sw_vers: Option<&str>) -> (r: String)
    ensures
        r@ == macos_version(text_view(sw_vers)),
{
    if let Some(text) = sw_vers {
        let product_name = keyed_value(text, "ProductName:", Strip::Space);
        let product_version = keyed_value(text, "ProductVersion:", Strip::Space);
        if product_name.len() > 0 && product_version.len() > 0 {
            let mut out = product_name;
            let space = chars_of(" ");
            append_chars(&mut out, &space);
            append_chars(&mut out, &product_version);
            return string_of(&out);
        }
    }
    "macOS (version unknown)".to_string()
}

} // verus!
