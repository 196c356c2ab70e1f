//! macOS: what is made of the answers of `ps` and `osascript`.

use vstd::prelude::*;
use crate::fields::{after_last, after_last_char, slice_of, trim, trimmed};
use crate::number::{decimal_digits, decimal_string};
use crate::platform::{result_view, successful_output, CommandOutcome, CommandOutcomeView};
use crate::text::{chars_of, same_chars_text, string_of};

verus! {

/// The name of a process, from what `ps -p PID -o comm=` answered.
pub open spec fn process_name_from_ps(pid: u32, ps: CommandOutcomeView) -> Result<
    Seq<char>,
    Seq<char>,
> {
    match ps {
        CommandOutcomeView::NotRun(reason) => Err("Failed to execute ps: "@ + reason),
        CommandOutcomeView::Ran { success, stdout } => if success && trimmed(stdout).len() > 0 {
            Ok(after_last_char(trimmed(stdout), '/'))
        } else {
            Err("Process "@ + decimal_digits(pid as nat) + " not found"@)
        },
    }
}

/// The name of the process `pid`, from what `ps -p PID -o comm=` answered:
/// the last component of the path it printed.
pub fn get_process_name(pid: u32, ps: &CommandOutcome) -> (r: Result<String, String>)
    ensures
        result_view(r) == process_name_from_ps(pid, ps@),
{
    match ps {
        CommandOutcome::NotRun(reason) => {
            let mut message = "Failed to execute ps: ".to_string();
            message.append(reason.as_str());
            Err(message)
        },
        CommandOutcome::Ran { success, stdout } => {
            if *success {
                let cs = chars_of(stdout.as_str());
                let kept = trim(&cs);
                let name = slice_of(&cs, kept);
                if name.len() > 0 {
                    let tail = after_last(&name, '/');
                    let filename = slice_of(&name, tail);
                    return Ok(string_of(&filename));
                }
            }
            let mut message = "Process ".to_string();
            let digits = decimal_string(pid as u64);
            message.append(digits.as_str());
            message.append(" not found");
            Err(message)
        },
    }
}

/// The script that asks System Events for the title of the front window of
/// process `pid`, and answers `process_name` where it cannot tell.
pub open spec fn title_script(pid: u32, process_name: Seq<char>) -> Seq<char> {
    "\n"@
        + "        tell application \"System Events\"\n"@
        + "            try\n"@
        + "                set appName to name of first process whose unix id is "@
        + decimal_digits(pid as nat)
        + "\n"@
        + "                tell process appName\n"@
        + "                    try\n"@
        + "                        set windowTitle to name of front window\n"@
        + "                        return windowTitle\n"@
        + "                    on error\n"@
        + "                        return appName\n"@
        + "                    end try\n"@
        + "                end tell\n"@
        + "            on error\n"@
        + "                return \""@
        + process_name
        + "\"\n"@
        + "            end try\n"@
        + "        end tell\n"@
        + "        "@
}

/// The script to hand to `osascript -e` for the window title of `pid`.
pub fn window_title_script(pid: u32, process_name: &str) -> (r: String)
    ensures
        r@ == title_script(pid, process_name@),
{
    let digits = decimal_string(pid as u64);
    let mut script = "\n".to_string();
    script.append("        tell application \"System Events\"\n");
    script.append("            try\n");
    script.append("                set appName to name of first process whose unix id is ");
    script.append(digits.as_str());
    script.append("\n");
    script.append("                tell process appName\n");
    script.append("                    try\n");
    script.append("                        set windowTitle to name of front window\n");
    script.append("                        return windowTitle\n");
    script.append("                    on error\n");
    script.append("                        return appName\n");
    script.append("                    end try\n");
    script.append("                end tell\n");
    script.append("            on error\n");
    script.append("                return \"");
    script.append(process_name);
    script.append("\"\n");
    script.append("            end try\n");
    script.append("        end tell\n");
    script.append("        ");
    assert(script@ =~= title_script(pid, process_name@));
    script
}

/// The window title, from the name of the process and what the script
/// answered: the answer without surrounding white space where the script
/// ran with success and answered something other than `missing value`; the
/// name of the process otherwise.
pub open spec fn window_title_from_script(
    process_name: Seq<char>,
    osascript: CommandOutcomeView,
) -> Seq<char> {
    match successful_output(osascript) {
        Some(stdout) => if trimmed(stdout).len() > 0 && trimmed(stdout) != "missing value"@ {
            trimmed(stdout)
        } else {
            process_name
        },
        None => process_name,
    }
}

/// The title of a window of a process. `process_name` is what the lookup
/// of its name gave; a failure there is the failure of this lookup, and
/// `osascript` is then not looked at.
pub fn get_window_title(process_name: Result<String, String>, osascript: &CommandOutcome) -> (r:
    Result<String, String>)
    ensures
        result_view(r) == match process_name {
            Ok(name) => Ok(window_title_from_script(name@, osascript@)),
            Err(e) => Err(e@),
        },
{
    let name = match process_name {
        Ok(name) => name,
        Err(e) => {
            return Err(e);
        },
    };
    if let Some(stdout) = osascript.successful_stdout() {
        let cs = chars_of(stdout);
        let kept = trim(&cs);
        let title = slice_of(&cs, kept);
        if title.len() > 0 && !same_chars_text(&title, "missing value") {
            return Ok(string_of(&title));
        }
    }
    Ok(name)
}

} // verus!
