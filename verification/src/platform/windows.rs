//! Windows: what is made of image paths, of the list of windows, and of
//! the answer of `tasklist`.

use vstd::prelude::*;
use crate::correlation_engine::opt_view;
use crate::fields::{
    after_last, after_last_char, before_char, before_first_char, lines, slice_of, split_lines,
    stripped_of, trim, trim_matches, trimmed,
};
use crate::number::{decimal_digits, decimal_string};
use crate::platform::result_view;
use crate::text::{chars_of, same_text, string_of};

verus! {

/// The name of a process, from the path of its image: the part after
/// the last backslash. A failure to learn the path is handed on.
pub fn get_process_name(image_path: Result<String, String>) -> (r: Result<String, String>)
    ensures
        result_view(r) == match image_path {
            Ok(path) => Ok(after_last_char(path@, '\\')),
            Err(e) => Err(e@),
        },
{
    match image_path {
        Ok(path) => {
            let cs = chars_of(path.as_str());
            let tail = after_last(&cs, '\\');
            let name = slice_of(&cs, tail);
            Ok(string_of(&name))
        },
        Err(e) => Err(e),
    }
}

/// A top-level window, as the enumeration of windows shows it.
#[derive(Debug)]
pub struct WindowInfo {
    /// The process that owns the window.
    pub process_id: u32,
    pub is_visible: bool,
    /// The text of the window; empty where it has none.
    pub title: String,
    /// The name of the owning process, where it could be learned.
    pub process_name: Option<String>,
}

/// What a `WindowInfo` holds, with its texts as character sequences.
pub struct WindowView {
    pub process_id: u32,
    pub is_visible: bool,
    pub title: Seq<char>,
    pub process_name: Option<Seq<char>>,
}

impl View for WindowInfo {
    type V = WindowView;

    open spec fn view(&self) -> WindowView {
        WindowView {
            process_id: self.process_id,
            is_visible: self.is_visible,
            title: self.title@,
            process_name: opt_view(self.process_name),
        }
    }
}

/// The views of a list of windows, in order.
pub open spec fn window_views(v: Seq<WindowInfo>) -> Seq<WindowView> {
    Seq::new(v.len(), |i: int| v[i]@)
}

/// A window whose title may be shown: it is visible, and its title is
/// more than white space.
pub open spec fn has_title(window: WindowView) -> bool {
    window.is_visible && trimmed(window.title).len() > 0
}

/// The title of the first window from `from` on that may be shown and
/// belongs to process `pid`.
pub open spec fn title_of_process(windows: Seq<WindowView>, pid: u32, from: int) -> Option<
    Seq<char>,
>
    decreases windows.len() - from,
{
    if 0 <= from < windows.len() {
        if has_title(windows[from]) && windows[from].process_id == pid {
            Some(windows[from].title)
        } else {
            title_of_process(windows, pid, from + 1)
        }
    } else {
        None
    }
}

/// The title of the first window from `from` on that may be shown and
/// belongs to a process of the given name.
pub open spec fn title_of_program(windows: Seq<WindowView>, name: Seq<char>, from: int) -> Option<
    Seq<char>,
>
    decreases windows.len() - from,
{
    if 0 <= from < windows.len() {
        if has_title(windows[from]) && windows[from].process_name == Some(name) {
            Some(windows[from].title)
        } else {
            title_of_program(windows, name, from + 1)
        }
    } else {
        None
    }
}

/// The window title shown for process `pid`: that of its own first
/// window; or else, where the name of its program is known, that of the
/// first window of any process of that program, as browsers and the like
/// run as many processes; or else nothing.
pub open spec fn window_title_for(
    windows: Seq<WindowView>,
    pid: u32,
    program: Option<Seq<char>>,
) -> Seq<char> {
    match title_of_process(windows, pid, 0) {
        Some(title) => title,
        None => match program {
            Some(name) => match title_of_program(windows, name, 0) {
                Some(title) => title,
                None => Seq::empty(),
            },
            None => Seq::empty(),
        },
    }
}

/// Whether the title of a window may be shown.
pub fn is_titled(window: &WindowInfo) -> (r: bool)
    ensures
        r == has_title(window@),
{
    if !window.is_visible {
        return false;
    }
    let cs = chars_of(window.title.as_str());
    let kept = trim(&cs);
    kept.end > kept.start
}

/// The window title shown for process `target_pid`, whose program is
/// `target_name` where that could be learned, among the top-level
/// windows in the order of their enumeration.
pub fn get_window_title(windows: &Vec<WindowInfo>, target_pid: u32, target_name: Option<&str>) -> (r:
    String)
    ensures
        r@ == window_title_for(
            window_views(windows@),
            target_pid,
            match target_name {
                Some(name) => Some(name@),
                None => None,
            },
        ),
{
    let ghost all = window_views(windows@);
    let mut i: usize = 0;
    while i < windows.len()
        invariant
            i <= windows.len(),
            all == window_views(windows@),
            title_of_process(all, target_pid, 0) == title_of_process(all, target_pid, i as int),
        decreases windows.len() - i,
    {
        assert(all[i as int] == windows@[i as int]@);
        if is_titled(&windows[i]) && windows[i].process_id == target_pid {
            return windows[i].title.clone();
        }
        i += 1;
    }
    if let Some(name) = target_name {
        let mut j: usize = 0;
        while j < windows.len()
            invariant
                j <= windows.len(),
                all == window_views(windows@),
                target_name == Some(name),
                title_of_process(all, target_pid, 0) is None,
                title_of_program(all, name@, 0) == title_of_program(all, name@, j as int),
            decreases windows.len() - j,
        {
            assert(all[j as int] == windows@[j as int]@);
            if is_titled(&windows[j]) {
                if let Some(program) = &windows[j].process_name {
                    if same_text(program.as_str(), name) {
                        return windows[j].title.clone();
                    }
                }
            }
            j += 1;
        }
    }
    String::new()
}

/// The name of process `pid` in the answer of `tasklist /FO CSV /NH`:
/// the first field of its first line, without the double quotes around
/// it. Where there is no answer, or no line in it, the process goes by
/// `Process_` and its id.
pub open spec fn tasklist_name(tasklist: Option<Seq<char>>, pid: u32) -> Seq<char> {
    if tasklist matches Some(text) && lines(text).len() > 0 {
        stripped_of(before_char(lines(tasklist->0)[0], ','), '"')
    } else {
        "Process_"@ + decimal_digits(pid as nat)
    }
}

/// The name of process `pid`, from what `tasklist` printed; `None` where
/// it could not be run.
pub fn process_name_from_tasklist(tasklist: Option<&str>, pid: u32) -> (r: String)
    ensures
        r@ == tasklist_name(
            match tasklist {
                Some(text) => Some(text@),
                None => None,
            },
            pid,
        ),
{
    if let Some(text) = tasklist {
        let cs = chars_of(text);
        let spans = split_lines(&cs);
        if spans.len() > 0 {
            let first_line = slice_of(&cs, spans[0]);
            let head = before_first_char(&first_line, ',');
            let field = slice_of(&first_line, head);
            let kept = trim_matches(&field, '"');
            let name = slice_of(&field, kept);
            return string_of(&name);
        }
    }
    let mut label = "Process_".to_string();
    let digits = decimal_string(pid as u64);
    label.append(digits.as_str());
    label
}

} // verus!
