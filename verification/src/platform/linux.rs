//! Linux: what is made of `/proc` and of the answers of the window tools.
//!
//! A window title is looked for in several places, one after the other.
//! Each place is asked outside this library; `get_window_title` decides,
//! after each answer, whether the title is found or where to ask next.

use vstd::prelude::*;
use crate::fields::{
    after_first, after_last, after_last_char, after_seq, append_chars, before_char,
    before_first_char, has_prefix, join_spans, joined_from, lemma_pieces_of, lines, second_piece,
    segment_after, slice_of, spans_cover, split_char, split_lines, split_on, split_words,
    starts_with, words, Span,
};
use crate::network_monitor::{parse_pid, parsed_pid};
use crate::number::{decimal_digits, decimal_string};
use crate::platform::{result_view, successful_output, CommandOutcome, CommandOutcomeView};
use crate::text::{chars_of, contains_seq, find_chars, string_of};

verus! {

/// Why the name of a process could not be read from `/proc`.
#[derive(Debug)]
pub enum ProcFailure {
    /// The process could not be opened; the reason.
    Open(String),
    /// Its status could not be read; the reason.
    Stat(String),
}

/// What a `ProcFailure` holds, with its text as a character sequence.
pub enum ProcFailureView {
    Open(Seq<char>),
    Stat(Seq<char>),
}

impl View for ProcFailure {
    type V = ProcFailureView;

    open spec fn view(&self) -> ProcFailureView {
        match self {
            ProcFailure::Open(e) => ProcFailureView::Open(e@),
            ProcFailure::Stat(e) => ProcFailureView::Stat(e@),
        }
    }
}

/// The message for a failure to read the name of process `pid`.
pub open spec fn proc_failure_message(pid: u32, failure: ProcFailureView) -> Seq<char> {
    match failure {
        ProcFailureView::Open(e) => "Failed to read process "@ + decimal_digits(pid as nat) + ": "@
            + e,
        ProcFailureView::Stat(e) => "Failed to read process stat: "@ + e,
    }
}

/// The name of process `pid`, from what reading `/proc` gave: the command
/// name of its status, or the message for the failure.
pub fn get_process_name(pid: u32, read: Result<String, ProcFailure>) -> (r: Result<String, String>)
    ensures
        result_view(r) == match read {
            Ok(comm) => Ok(comm@),
            Err(failure) => Err(proc_failure_message(pid, failure@)),
        },
{
    match read {
        Ok(comm) => Ok(comm),
        Err(ProcFailure::Open(e)) => {
            let mut message = "Failed to read process ".to_string();
            let digits = decimal_string(pid as u64);
            message.append(digits.as_str());
            message.append(": ");
            message.append(e.as_str());
            Err(message)
        },
        Err(ProcFailure::Stat(e)) => {
            let mut message = "Failed to read process stat: ".to_string();
            message.append(e.as_str());
            Err(message)
        },
    }
}

/// A place in which a window title is looked for.
#[derive(Debug, Clone, Copy, PartialEq, Eq, Structural)]
pub enum TitleSource {
    /// The window properties of the X server.
    X11,
    /// The environment of the process, for a Wayland session.
    Wayland,
    /// The window list of `wmctrl`.
    Wmctrl,
    /// The command line of the process.
    Cmdline,
    /// The name of the process, when all else has failed.
    ProcessName,
}

/// What to do after a place has answered.
#[derive(Debug)]
pub enum TitleStep {
    /// The title is found.
    Found(String),
    /// Ask this place next.
    Try(TitleSource),
    /// No place is left; the reason why the last one failed.
    Failed(String),
}

/// What a `TitleStep` holds, with its texts as character sequences.
pub enum TitleStepView {
    Found(Seq<char>),
    Try(TitleSource),
    Failed(Seq<char>),
}

impl View for TitleStep {
    type V = TitleStepView;

    open spec fn view(&self) -> TitleStepView {
        match self {
            TitleStep::Found(t) => TitleStepView::Found(t@),
            TitleStep::Try(s) => TitleStepView::Try(*s),
            TitleStep::Failed(e) => TitleStepView::Failed(e@),
        }
    }
}

impl TitleSource {
    /// The place of a source in the order in which the sources are asked.
    pub open spec fn rank(self) -> nat {
        match self {
            TitleSource::X11 => 0,
            TitleSource::Wayland => 1,
            TitleSource::Wmctrl => 2,
            TitleSource::Cmdline => 3,
            TitleSource::ProcessName => 4,
        }
    }

    /// The place that is asked first.
    pub fn first() -> (r: TitleSource)
        ensures
            r.rank() == 0,
    {
        TitleSource::X11
    }
}

/// Whether an answer of a place is taken for the title: it must not be
/// empty, and from the X server it must not be the notice that no window
/// was found.
pub open spec fn is_usable_title(source: TitleSource, title: Seq<char>) -> bool {
    &&& title.len() > 0
    &&& source == TitleSource::X11 ==> title != "Window not found for PID"@
}

/// The step after `source` has answered `attempt`: a usable title is
/// found; otherwise the next place is asked, in the order X server,
/// Wayland, `wmctrl`, command line, process name. The process name is
/// taken as it is, and its failure is the failure of the whole search.
pub open spec fn title_step(
    source: TitleSource,
    attempt: Result<Seq<char>, Seq<char>>,
) -> TitleStepView {
    match source {
        TitleSource::ProcessName => match attempt {
            Ok(name) => TitleStepView::Found(name),
            Err(e) => TitleStepView::Failed(e),
        },
        _ => match attempt {
            Ok(title) if is_usable_title(source, title) => TitleStepView::Found(title),
            _ => TitleStepView::Try(
                match source {
                    TitleSource::X11 => TitleSource::Wayland,
                    TitleSource::Wayland => TitleSource::Wmctrl,
                    TitleSource::Wmctrl => TitleSource::Cmdline,
                    _ => TitleSource::ProcessName,
                },
            ),
        },
    }
}

/// The search goes on with the place that is next in rank, and ends at
/// the last place whatever that answers: it takes five steps at most.
pub proof fn law_title_search_advances(source: TitleSource, attempt: Result<Seq<char>, Seq<char>>)
    ensures
        title_step(source, attempt) matches TitleStepView::Try(next) ==> next.rank()
            == source.rank() + 1,
        source.rank() == 4 ==> !(title_step(source, attempt) is Try),
{
}

/// One step of the search for a window title: what to do after `source`
/// has answered `attempt`. The search begins with the X server.
pub fn get_window_title(source: TitleSource, attempt: Result<String, String>) -> (r: TitleStep)
    ensures
        r@ == title_step(source, result_view(attempt)),
{
    match source {
        TitleSource::ProcessName => match attempt {
            Ok(name) => TitleStep::Found(name),
            Err(e) => TitleStep::Failed(e),
        },
        TitleSource::X11 => {
            if let Ok(title) = attempt {
                let cs = chars_of(title.as_str());
                if cs.len() > 0 && !crate::text::same_chars_text(&cs, "Window not found for PID") {
                    return TitleStep::Found(title);
                }
            }
            TitleStep::Try(TitleSource::Wayland)
        },
        TitleSource::Wayland => {
            if let Ok(title) = attempt {
                let cs = chars_of(title.as_str());
                if cs.len() > 0 {
                    return TitleStep::Found(title);
                }
            }
            TitleStep::Try(TitleSource::Wmctrl)
        },
        TitleSource::Wmctrl => {
            if let Ok(title) = attempt {
                let cs = chars_of(title.as_str());
                if cs.len() > 0 {
                    return TitleStep::Found(title);
                }
            }
            TitleStep::Try(TitleSource::Cmdline)
        },
        TitleSource::Cmdline => {
            if let Ok(title) = attempt {
                let cs = chars_of(title.as_str());
                if cs.len() > 0 {
                    return TitleStep::Found(title);
                }
            }
            TitleStep::Try(TitleSource::ProcessName)
        },
    }
}

/// The host of a URL: what stands between `://` and the next slash. A
/// text without `://` is taken whole.
pub open spec fn domain_of(url: Seq<char>) -> Seq<char> {
    match after_seq(url, "://"@) {
        Some(rest) => before_char(rest, '/'),
        None => url,
    }
}

/// The host of a URL, on its characters.
pub fn domain_chars(url: &Vec<char>) -> (r: Vec<char>)
    ensures
        r@ == domain_of(url@),
{
    let separator = chars_of("://");
    match after_first(url, &separator) {
        Some(span) => {
            let rest = slice_of(url, span);
            let head = before_first_char(&rest, '/');
            slice_of(&rest, head)
        },
        None => {
            let whole = slice_of(url, Span { start: 0, end: url.len() });
            assert(whole@ =~= url@);
            whole
        },
    }
}

/// The host of a URL.
pub fn extract_domain(url: &str) -> (r: String)
    ensures
        r@ == domain_of(url@),
{
    let cs = chars_of(url);
    let domain = domain_chars(&cs);
    string_of(&domain)
}

/// Whether an argument holds the address of a meeting site.
pub open spec fn names_meeting_site(arg: Seq<char>) -> bool {
    ||| contains_seq(arg, "meet.google.com"@)
    ||| contains_seq(arg, "teams.microsoft.com"@)
    ||| contains_seq(arg, "zoom.us"@)
}

/// The title that one argument of a command line gives, if it gives one:
/// `Meeting: ` and the host, for the address of a meeting site; what
/// follows `--app=`; or what follows the first `=` up to the next one, in
/// an argument that holds `--title=` or `--name=`.
pub open spec fn title_of_argument(arg: Seq<char>) -> Option<Seq<char>> {
    if names_meeting_site(arg) {
        Some("Meeting: "@ + domain_of(arg))
    } else if contains_seq(arg, "--app="@) {
        segment_after(arg, "--app="@)
    } else if (contains_seq(arg, "--title="@) || contains_seq(arg, "--name="@)) && split_on(
        arg,
        '=',
    ).len() >= 2 {
        Some(split_on(arg, '=')[1])
    } else {
        None
    }
}

/// The title that one argument of a command line gives.
pub fn argument_title(arg: &Vec<char>) -> (r: Option<Vec<char>>)
    ensures
        match r {
            Some(t) => title_of_argument(arg@) == Some(t@),
            None => title_of_argument(arg@) is None,
        },
{
    let meet = chars_of("meet.google.com");
    let teams = chars_of("teams.microsoft.com");
    let zoom = chars_of("zoom.us");
    if find_chars(arg, &meet).is_some() || find_chars(arg, &teams).is_some() || find_chars(
        arg,
        &zoom,
    ).is_some() {
        let mut title = chars_of("Meeting: ");
        let domain = domain_chars(arg);
        append_chars(&mut title, &domain);
        return Some(title);
    }
    let app = chars_of("--app=");
    if find_chars(arg, &app).is_some() {
        return second_piece(arg, &app);
    }
    let title = chars_of("--title=");
    let name = chars_of("--name=");
    if find_chars(arg, &title).is_some() || find_chars(arg, &name).is_some() {
        let pieces = split_char(arg, '=');
        if pieces.len() >= 2 {
            return Some(slice_of(arg, pieces[1]));
        }
    }
    None
}

/// The title given by the first of `args` from `from` on that gives one.
pub open spec fn first_title(args: Seq<Seq<char>>, from: int) -> Option<Seq<char>>
    decreases args.len() - from,
{
    if 0 <= from < args.len() {
        match title_of_argument(args[from]) {
            Some(t) => Some(t),
            None => first_title(args, from + 1),
        }
    } else {
        None
    }
}

/// The first of `args` from `from` on that is not empty.
pub open spec fn first_nonempty(args: Seq<Seq<char>>, from: int) -> Option<Seq<char>>
    decreases args.len() - from,
{
    if 0 <= from < args.len() {
        if args[from].len() > 0 {
            Some(args[from])
        } else {
            first_nonempty(args, from + 1)
        }
    } else {
        None
    }
}

/// The title that a command line gives. Its arguments are what the NUL
/// characters separate, empty ones left out. The first argument that
/// gives a title decides; where none does, the title is the last path
/// component of the first argument. A command line without arguments
/// gives no title.
pub open spec fn cmdline_title(cmdline: Seq<char>) -> Option<Seq<char>> {
    let args = split_on(cmdline, '\0');
    match first_title(args, 0) {
        Some(t) => Some(t),
        None => match first_nonempty(args, 0) {
            Some(exe) => Some(after_last_char(exe, '/')),
            None => None,
        },
    }
}

/// The title that the command line of a process gives; `cmdline` is the
/// content of its `cmdline` file, or `None` where it could not be read.
pub open spec fn title_from_cmdline(cmdline: Option<Seq<char>>) -> Result<Seq<char>, Seq<char>> {
    match cmdline {
        Some(text) => match cmdline_title(text) {
            Some(t) => Ok(t),
            None => Err("Could not extract title from cmdline"@),
        },
        None => Err("Could not extract title from cmdline"@),
    }
}

/// The title that the command line of a process gives.
pub fn get_title_from_cmdline(cmdline: Option<&str>) -> (r: Result<String, String>)
    ensures
        result_view(r) == title_from_cmdline(
            match cmdline {
                Some(text) => Some(text@),
                None => None,
            },
        ),
{
    if let Some(text) = cmdline {
        let cs = chars_of(text);
        let pieces = split_char(&cs, '\0');
        let ghost args = split_on(cs@, '\0');
        let mut i: usize = 0;
        while i < pieces.len()
            invariant
                i <= pieces.len(),
                cmdline == Some(text),
                cs@ == text@,
                args == split_on(cs@, '\0'),
                spans_cover(cs@, pieces@, args),
                first_title(args, 0) == first_title(args, i as int),
            decreases pieces.len() - i,
        {
            let arg = slice_of(&cs, pieces[i]);
            assert(arg@ == args[i as int]);
            if let Some(title) = argument_title(&arg) {
                assert(first_title(args, i as int) == Some(title@));
                assert(cmdline_title(text@) == Some(title@));
                return Ok(string_of(&title));
            }
            assert(first_title(args, i as int) == first_title(args, i + 1));
            i += 1;
        }
        assert(first_title(args, 0) is None);
        let mut j: usize = 0;
        while j < pieces.len()
            invariant
                j <= pieces.len(),
                cmdline == Some(text),
                cs@ == text@,
                args == split_on(cs@, '\0'),
                spans_cover(cs@, pieces@, args),
                first_title(args, 0) is None,
                first_nonempty(args, 0) == first_nonempty(args, j as int),
            decreases pieces.len() - j,
        {
            let arg = slice_of(&cs, pieces[j]);
            assert(arg@ == args[j as int]);
            if arg.len() > 0 {
                let tail = after_last(&arg, '/');
                let basename = slice_of(&arg, tail);
                assert(first_nonempty(args, j as int) == Some(arg@));
                assert(cmdline_title(text@) == Some(basename@));
                return Ok(string_of(&basename));
            }
            assert(first_nonempty(args, j as int) == first_nonempty(args, j + 1));
            j += 1;
        }
        assert(first_nonempty(args, 0) is None);
        assert(cmdline_title(text@) is None);
    }
    Err("Could not extract title from cmdline".to_string())
}

/// Whether the environment of a process shows a Wayland session: it
/// mentions `WAYLAND_DISPLAY`, and one of its entries begins with
/// `GDK_BACKEND` or `WAYLAND_DISPLAY`.
pub open spec fn shows_wayland(environ: Seq<char>) -> bool {
    &&& contains_seq(environ, "WAYLAND_DISPLAY"@)
    &&& exists|i: int|
        0 <= i < split_on(environ, '\0').len() && (has_prefix(
            #[trigger] split_on(environ, '\0')[i],
            "GDK_BACKEND"@,
        ) || has_prefix(split_on(environ, '\0')[i], "WAYLAND_DISPLAY"@))
}

/// Whether the environment of a process shows a Wayland session.
pub fn is_wayland_session(environ: &str) -> (r: bool)
    ensures
        r == shows_wayland(environ@),
{
    let cs = chars_of(environ);
    let display = chars_of("WAYLAND_DISPLAY");
    let backend = chars_of("GDK_BACKEND");
    if find_chars(&cs, &display).is_none() {
        return false;
    }
    let entries = split_char(&cs, '\0');
    let ghost pieces = split_on(cs@, '\0');
    let mut i: usize = 0;
    while i < entries.len()
        invariant
            i <= entries.len(),
            cs@ == environ@,
            pieces == split_on(cs@, '\0'),
            spans_cover(cs@, entries@, pieces),
            contains_seq(cs@, "WAYLAND_DISPLAY"@),
            display@ == "WAYLAND_DISPLAY"@,
            backend@ == "GDK_BACKEND"@,
            forall|j: int|
                0 <= j < i ==> !(has_prefix(#[trigger] pieces[j], "GDK_BACKEND"@) || has_prefix(
                    pieces[j],
                    "WAYLAND_DISPLAY"@,
                )),
        decreases entries.len() - i,
    {
        let entry = slice_of(&cs, entries[i]);
        assert(entry@ == pieces[i as int]);
        if starts_with(&entry, &backend) || starts_with(&entry, &display) {
            assert(has_prefix(pieces[i as int], "GDK_BACKEND"@) || has_prefix(
                pieces[i as int],
                "WAYLAND_DISPLAY"@,
            ));
            return true;
        }
        i += 1;
    }
    false
}

/// The title of a window in a Wayland session, from the environment and
/// the command line of the process, each `None` where it could not be read.
pub open spec fn wayland_title(
    environ: Option<Seq<char>>,
    cmdline: Option<Seq<char>>,
) -> Result<Seq<char>, Seq<char>> {
    match environ {
        Some(text) => if shows_wayland(text) {
            title_from_cmdline(cmdline)
        } else {
            Err("Not running under Wayland or info unavailable"@)
        },
        None => Err("Not running under Wayland or info unavailable"@),
    }
}

/// The title of a window in a Wayland session: that of the command line,
/// where the environment shows such a session.
pub fn get_window_title_wayland(environ: Option<&str>, cmdline: Option<&str>) -> (r: Result<
    String,
    String,
>)
    ensures
        result_view(r) == wayland_title(
            match environ {
                Some(text) => Some(text@),
                None => None,
            },
            match cmdline {
                Some(text) => Some(text@),
                None => None,
            },
        ),
{
    if let Some(text) = environ {
        if is_wayland_session(text) {
            return get_title_from_cmdline(cmdline);
        }
    }
    Err("Not running under Wayland or info unavailable".to_string())
}

/// The title that a line of `wmctrl -l -p` gives for process `pid`: the
/// line has five columns at least and `pid` in the third, and the title
/// is its columns from the fifth on, joined with single spaces.
pub open spec fn wmctrl_line_title(line: Seq<char>, pid: u32) -> Option<Seq<char>> {
    let columns = words(line);
    if columns.len() >= 5 && parsed_pid(columns[2]) == Some(pid) {
        Some(joined_from(columns, 4))
    } else {
        None
    }
}

/// The title that the first of `lines` from `from` on gives for `pid`.
pub open spec fn first_window_title(lines: Seq<Seq<char>>, pid: u32, from: int) -> Option<
    Seq<char>,
>
    decreases lines.len() - from,
{
    if 0 <= from < lines.len() {
        match wmctrl_line_title(lines[from], pid) {
            Some(t) => Some(t),
            None => first_window_title(lines, pid, from + 1),
        }
    } else {
        None
    }
}

/// The title of a window of process `pid` in the window list of `wmctrl`.
pub open spec fn wmctrl_title(wmctrl: CommandOutcomeView, pid: u32) -> Result<
    Seq<char>,
    Seq<char>,
> {
    match successful_output(wmctrl) {
        Some(stdout) => match first_window_title(lines(stdout), pid, 0) {
            Some(t) => Ok(t),
            None => Err("wmctrl not available or window not found"@),
        },
        None => Err("wmctrl not available or window not found"@),
    }
}

/// The title of a window of process `pid`, from what `wmctrl -l -p` answered.
pub fn get_window_title_wmctrl(wmctrl: &CommandOutcome, pid: u32) -> (r: Result<String, String>)
    ensures
        result_view(r) == wmctrl_title(wmctrl@, pid),
{
    if let Some(stdout) = wmctrl.successful_stdout() {
        let cs = chars_of(stdout);
        let spans = split_lines(&cs);
        let ghost all = lines(cs@);
        let mut i: usize = 0;
        while i < spans.len()
            invariant
                i <= spans.len(),
                successful_output(wmctrl@) == Some(stdout@),
                cs@ == stdout@,
                all == lines(cs@),
                spans_cover(cs@, spans@, all),
                first_window_title(all, pid, 0) == first_window_title(all, pid, i as int),
            decreases spans.len() - i,
        {
            let line = slice_of(&cs, spans[i]);
            assert(line@ == all[i as int]);
            let columns = split_words(&line);
            if columns.len() >= 5 {
                let third = slice_of(&line, columns[2]);
                if let Some(window_pid) = parse_pid(&third) {
                    if window_pid == pid {
                        proof {
                            lemma_pieces_of(line@, columns@, words(line@));
                        }
                        let title = join_spans(&line, &columns, 4);
                        assert(wmctrl_line_title(line@, pid) == Some(title@));
                        assert(first_window_title(all, pid, i as int) == Some(title@));
                        return Ok(string_of(&title));
                    }
                }
            }
            assert(wmctrl_line_title(line@, pid) is None);
            assert(first_window_title(all, pid, i as int) == first_window_title(all, pid, i + 1));
            i += 1;
        }
        assert(first_window_title(all, pid, 0) is None);
    }
    Err("wmctrl not available or window not found".to_string())
}

} // verus!
