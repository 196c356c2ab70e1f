//! macOS: what is made of the answers of the system tools about audio.

use vstd::prelude::*;
use crate::audio::{AudioAppSession, AudioAppSessionView, AudioInfo};
use crate::fields::{
    after_first, after_last, after_last_char, after_seq, join_spans, joined_from,
    lemma_pieces_of, lines, remove_all, slice_of, spans_cover, split_lines, split_words, trim,
    trimmed, without, words, Span,
};
use crate::network_monitor::{parse_pid, parsed_pid};
use crate::platform::{
    any_output, result_view, successful_output, CommandOutcome, CommandOutcomeView, PlatformUtils,
};
use crate::text::{
    chars_of, contains, contains_any, contains_any_marker, contains_seq, find_chars,
    join_spaced, lowercase, same_chars_text, same_text, spaced, string_of,
    to_lowercase, views,
};

verus! {

/// The volume assumed for the microphone, which the system does not tell.
pub const ASSUMED_MICROPHONE_VOLUME: u32 = 75_000_000;

/// The volume reported for every application.
pub const ASSUMED_APP_VOLUME: u32 = 75_000_000;

/// The volume assumed when the system's answer is no number.
pub const FALLBACK_OUTPUT_VOLUME: u32 = 50_000_000;

/// Volume and mute state of the default microphone: an assumed volume
/// where the profiler of the system could be run, and muted at volume
/// zero where it could not.
pub fn get_microphone_volume_and_mute(profiler_ran: bool) -> (r: Result<AudioInfo, String>)
    ensures
        r matches Ok(info) && info == if profiler_ran {
            AudioInfo { volume: ASSUMED_MICROPHONE_VOLUME, is_muted: false }
        } else {
            AudioInfo { volume: 0, is_muted: true }
        },
{
    if profiler_ran {
        Ok(AudioInfo { volume: ASSUMED_MICROPHONE_VOLUME, is_muted: false })
    } else {
        Ok(AudioInfo { volume: 0, is_muted: true })
    }
}

/// One of the lines of `text` holds `marker`.
pub open spec fn some_line_holds(text: Seq<char>, marker: Seq<char>) -> bool {
    exists|i: int| 0 <= i < lines(text).len() && contains_seq(#[trigger] lines(text)[i], marker)
}

/// Whether one of the lines of `text` holds `marker`.
pub fn any_line_holds(text: &str, marker: &str) -> (r: bool)
    ensures
        r == some_line_holds(text@, marker@),
{
    let cs = chars_of(text);
    let needle = chars_of(marker);
    let spans = split_lines(&cs);
    let ghost all = lines(cs@);
    let mut i: usize = 0;
    while i < spans.len()
        invariant
            i <= spans.len(),
            cs@ == text@,
            needle@ == marker@,
            all == lines(cs@),
            spans_cover(cs@, spans@, all),
            forall|j: int| 0 <= j < i ==> !contains_seq(#[trigger] all[j], marker@),
        decreases spans.len() - i,
    {
        let line = slice_of(&cs, spans[i]);
        assert(line@ == all[i as int]);
        if find_chars(&line, &needle).is_some() {
            return true;
        }
        i += 1;
    }
    false
}

/// The name of a default device, from the report of the system's
/// profiler: `built_in` where one of its lines holds `marker`, and
/// `fallback` otherwise or where there is no report.
pub open spec fn default_device_name(
    report: Option<Seq<char>>,
    marker: Seq<char>,
    built_in: Seq<char>,
    fallback: Seq<char>,
) -> Seq<char> {
    match report {
        Some(text) => if some_line_holds(text, marker) {
            built_in
        } else {
            fallback
        },
        None => fallback,
    }
}

/// The view of an optional slice.
pub open spec fn opt_str_view(o: Option<&str>) -> Option<Seq<char>> {
    match o {
        Some(s) => Some(s@),
        None => None,
    }
}

/// The name of the default microphone, from the report of
/// `system_profiler SPAudioDataType`, or `None` where it could not be run.
pub fn get_microphone_device_name(report: Option<&str>) -> (r: Result<String, String>)
    ensures
        result_view(r) == Ok::<Seq<char>, Seq<char>>(
            default_device_name(
                opt_str_view(report),
                "Default Input Device: Yes"@,
                "Built-in Microphone"@,
                "Default Microphone"@,
            ),
        ),
{
    if let Some(text) = report {
        if any_line_holds(text, "Default Input Device: Yes") {
            return Ok("Built-in Microphone".to_string());
        }
    }
    Ok("Default Microphone".to_string())
}

/// The name of the default output device, from the report of
/// `system_profiler SPAudioDataType`, or `None` where it could not be run.
pub fn get_audio_output_device_name(report: Option<&str>) -> (r: Result<String, String>)
    ensures
        result_view(r) == Ok::<Seq<char>, Seq<char>>(
            default_device_name(
                opt_str_view(report),
                "Default Output Device: Yes"@,
                "Built-in Output"@,
                "Default Speakers"@,
            ),
        ),
{
    if let Some(text) = report {
        if any_line_holds(text, "Default Output Device: Yes") {
            return Ok("Built-in Output".to_string());
        }
    }
    Ok("Default Speakers".to_string())
}

/// What the system answered when asked for the output volume.
#[derive(Debug, Clone, Copy, PartialEq, Eq, Structural)]
pub enum VolumeAnswer {
    /// The question could not be put.
    NotAsked,
    /// The answer is no number.
    NoNumber,
    /// The volume in percent.
    Volume(u32),
}

/// Volume and mute state of the output device. `mute_answer` is what
/// the system answered when asked whether the output is muted, or `None`
/// where that question could not be put; the output is muted exactly
/// when the answer, without surrounding white space, is `true`.
pub open spec fn output_state(volume: VolumeAnswer, mute_answer: Option<Seq<char>>) -> AudioInfo {
    match volume {
        VolumeAnswer::NotAsked => AudioInfo { volume: 0, is_muted: true },
        VolumeAnswer::NoNumber => AudioInfo { volume: FALLBACK_OUTPUT_VOLUME, is_muted: false },
        VolumeAnswer::Volume(v) => AudioInfo {
            volume: v,
            is_muted: match mute_answer {
                Some(answer) => trimmed(answer) == "true"@,
                None => false,
            },
        },
    }
}

/// Whether a text, without surrounding white space, is `literal`.
pub fn trimmed_is(text: &str, literal: &str) -> (r: bool)
    ensures
        r == (trimmed(text@) == literal@),
{
    let cs = chars_of(text);
    let kept = trim(&cs);
    let body = slice_of(&cs, kept);
    same_chars_text(&body, literal)
}

/// Volume and mute state of the default output device.
pub fn get_audio_output_volume_and_mute(volume: VolumeAnswer, mute_answer: Option<&str>) -> (r:
    Result<AudioInfo, String>)
    ensures
        r matches Ok(info) && info == output_state(volume, opt_str_view(mute_answer)),
{
    match volume {
        VolumeAnswer::NotAsked => Ok(AudioInfo { volume: 0, is_muted: true }),
        VolumeAnswer::NoNumber => Ok(
            AudioInfo { volume: FALLBACK_OUTPUT_VOLUME, is_muted: false },
        ),
        VolumeAnswer::Volume(v) => {
            let is_muted = match mute_answer {
                Some(answer) => trimmed_is(answer, "true"),
                None => false,
            };
            Ok(AudioInfo { volume: v, is_muted })
        },
    }
}

/// The words that hint at a meeting in the name or title of an application.
pub open spec fn meeting_hints() -> Seq<Seq<char>> {
    seq!["meet"@, "zoom"@, "teams"@, "slack"@, "call"@, "conference"@, "webinar"@]
}

/// The words that hint at media being played.
pub open spec fn media_hints() -> Seq<Seq<char>> {
    seq!["playing"@, "music"@, "spotify"@, "youtube"@]
}

/// Whether a lower-case text hints at audio being played.
pub open spec fn hints_at_audio(text: Seq<char>) -> bool {
    contains_any(text, meeting_hints()) || contains_any(text, media_hints())
}

/// Whether a lower-case text hints at audio being played.
pub fn finds_audio_hint(text: &str) -> (r: bool)
    ensures
        r == hints_at_audio(text@),
{
    let mut meeting: Vec<String> = Vec::new();
    meeting.push("meet".to_string());
    meeting.push("zoom".to_string());
    meeting.push("teams".to_string());
    meeting.push("slack".to_string());
    meeting.push("call".to_string());
    meeting.push("conference".to_string());
    meeting.push("webinar".to_string());
    assert(views(meeting@) =~= meeting_hints());
    if contains_any_marker(text, &meeting) {
        return true;
    }
    let mut media: Vec<String> = Vec::new();
    media.push("playing".to_string());
    media.push("music".to_string());
    media.push("spotify".to_string());
    media.push("youtube".to_string());
    assert(views(media@) =~= media_hints());
    contains_any_marker(text, &media)
}

/// Whether an application is likely to play audio, judged by its name
/// and the title of its window.
pub fn is_app_likely_playing_audio(app_name: &str, window_title: &str) -> (r: bool)
    ensures
        r == hints_at_audio(lowercase(spaced(app_name@, window_title@))),
{
    let combined = join_spaced(app_name, window_title);
    let lower = to_lowercase(combined.as_str());
    finds_audio_hint(lower.as_str())
}

/// The level assumed for an application that plays audio, judged by a
/// lower-case text that names it: 0.4 for a meeting app, 0.6 for a media
/// app, 0.2 for any other.
pub open spec fn assumed_level(text: Seq<char>) -> u32 {
    if contains_seq(text, "meet"@) || contains_seq(text, "zoom"@) || contains_seq(text, "teams"@)
        || contains_seq(text, "slack"@) {
        400_000
    } else if contains_seq(text, "music"@) || contains_seq(text, "spotify"@) || contains_seq(
        text,
        "youtube"@,
    ) {
        600_000
    } else {
        200_000
    }
}

/// The level assumed for an application that a lower-case text names.
pub fn level_for(text: &str) -> (r: u32)
    ensures
        r == assumed_level(text@),
{
    if contains(text, "meet") || contains(text, "zoom") || contains(text, "teams") || contains(
        text,
        "slack",
    ) {
        400_000
    } else if contains(text, "music") || contains(text, "spotify") || contains(text, "youtube") {
        600_000
    } else {
        200_000
    }
}

/// The level assumed for an application that plays audio, judged by its
/// name and the title of its window.
pub fn estimate_app_audio_level(app_name: &str, window_title: &str) -> (r: u32)
    ensures
        r == assumed_level(lowercase(spaced(app_name@, window_title@))),
{
    let combined = join_spaced(app_name, window_title);
    let lower = to_lowercase(combined.as_str());
    level_for(lower.as_str())
}

/// A running process: the name of its program and its id.
#[derive(Debug)]
pub struct ProcessEntry {
    pub name: String,
    pub pid: u32,
}

/// What a `ProcessEntry` holds, with its name as a character sequence.
pub struct ProcessEntryView {
    pub name: Seq<char>,
    pub pid: u32,
}

impl View for ProcessEntry {
    type V = ProcessEntryView;

    open spec fn view(&self) -> ProcessEntryView {
        ProcessEntryView { name: self.name@, pid: self.pid }
    }
}

/// The views of a list of processes, in order.
pub open spec fn entry_views(v: Seq<ProcessEntry>) -> Seq<ProcessEntryView> {
    Seq::new(v.len(), |i: int| v[i]@)
}

/// The process that a line of `ps -ax -o pid,comm` shows: the line has
/// two columns at least and a process id in the first; the name is the
/// last path component of the rest of the line.
pub open spec fn process_of_line(line: Seq<char>) -> Option<ProcessEntryView> {
    let columns = words(line);
    if columns.len() >= 2 {
        match parsed_pid(columns[0]) {
            Some(pid) => Some(
                ProcessEntryView { name: after_last_char(joined_from(columns, 1), '/'), pid },
            ),
            None => None,
        }
    } else {
        None
    }
}

/// The processes that the first `upto` of `lines` show, in order.
pub open spec fn processes_upto(lines: Seq<Seq<char>>, upto: int) -> Seq<ProcessEntryView>
    decreases upto,
{
    if upto <= 0 {
        Seq::empty()
    } else {
        let before = processes_upto(lines, upto - 1);
        match process_of_line(lines[upto - 1]) {
            Some(entry) => before.push(entry),
            None => before,
        }
    }
}

/// The processes that `ps -ax -o pid,comm` lists: those of its lines
/// after the heading, where it ran with success, and none otherwise.
pub open spec fn running_processes(ps: CommandOutcomeView) -> Seq<ProcessEntryView> {
    match successful_output(ps) {
        Some(stdout) => if lines(stdout).len() >= 1 {
            processes_upto(lines(stdout).skip(1), lines(stdout).len() - 1)
        } else {
            Seq::empty()
        },
        None => Seq::empty(),
    }
}

/// The process that a line of `ps -ax -o pid,comm` shows.
pub fn line_process(line: &Vec<char>) -> (r: Option<ProcessEntry>)
    ensures
        match r {
            Some(entry) => process_of_line(line@) == Some(entry@),
            None => process_of_line(line@) is None,
        },
{
    let columns = split_words(line);
    if columns.len() >= 2 {
        let first = slice_of(line, columns[0]);
        if let Some(pid) = parse_pid(&first) {
            proof {
                lemma_pieces_of(line@, columns@, words(line@));
            }
            let comm = join_spans(line, &columns, 1);
            let tail = after_last(&comm, '/');
            let name = slice_of(&comm, tail);
            return Some(ProcessEntry { name: string_of(&name), pid });
        }
    }
    None
}

/// The processes that `ps -ax -o pid,comm` lists. Where a name occurs
/// more than once, the last process of that name counts.
pub fn get_running_processes(ps: &CommandOutcome) -> (r: Vec<ProcessEntry>)
    ensures
        entry_views(r@) == running_processes(ps@),
{
    let mut out: Vec<ProcessEntry> = Vec::new();
    assert(entry_views(out@) =~= Seq::<ProcessEntryView>::empty());
    if let Some(stdout) = ps.successful_stdout() {
        let cs = chars_of(stdout);
        let spans = split_lines(&cs);
        let ghost all = lines(cs@);
        if spans.len() >= 1 {
            let ghost body = all.skip(1);
            let mut i: usize = 1;
            assert(entry_views(out@) =~= processes_upto(body, 0));
            while i < spans.len()
                invariant
                    1 <= i <= spans.len(),
                    cs@ == stdout@,
                    all == lines(cs@),
                    body == all.skip(1),
                    spans_cover(cs@, spans@, all),
                    entry_views(out@) == processes_upto(body, i - 1),
                decreases spans.len() - i,
            {
                let line = slice_of(&cs, spans[i]);
                assert(line@ == body[i - 1]);
                let ghost before = entry_views(out@);
                if let Some(entry) = line_process(&line) {
                    let ghost added = entry@;
                    out.push(entry);
                    assert(entry_views(out@) =~= before.push(added));
                }
                i += 1;
            }
        }
    }
    out
}

/// The id of the process of the given name among the first `upto`
/// entries: that of the last such entry.
pub open spec fn pid_of(entries: Seq<ProcessEntryView>, name: Seq<char>, upto: int) -> Option<u32>
    decreases upto,
{
    if upto <= 0 {
        None
    } else if entries[upto - 1].name == name {
        Some(entries[upto - 1].pid)
    } else {
        pid_of(entries, name, upto - 1)
    }
}

/// The id of the running process of the given name.
pub fn lookup_process(entries: &Vec<ProcessEntry>, name: &str) -> (r: Option<u32>)
    ensures
        r == pid_of(entry_views(entries@), name@, entries@.len() as int),
{
    let ghost all = entry_views(entries@);
    let mut i: usize = entries.len();
    while i > 0
        invariant
            i <= entries.len(),
            all == entry_views(entries@),
            pid_of(all, name@, entries@.len() as int) == pid_of(all, name@, i as int),
        decreases i,
    {
        assert(all[i - 1] == entries@[i - 1]@);
        if same_text(entries[i - 1].name.as_str(), name) {
            return Some(entries[i - 1].pid);
        }
        i -= 1;
    }
    None
}

/// The names by which the meeting apps are looked for among the
/// applications in the foreground.
pub open spec fn meeting_app_keywords() -> Seq<Seq<char>> {
    seq![
        "Chrome"@,
        "Safari"@,
        "Firefox"@,
        "zoom"@,
        "Teams"@,
        "Slack"@,
        "WhatsApp"@,
        "Meet"@,
    ]
}

/// Those of the first `upto` of `keywords` that occur in `text`, in order.
pub open spec fn keywords_in(text: Seq<char>, keywords: Seq<Seq<char>>, upto: int) -> Seq<
    Seq<char>,
>
    decreases upto,
{
    if upto <= 0 {
        Seq::empty()
    } else {
        let before = keywords_in(text, keywords, upto - 1);
        if contains_seq(text, keywords[upto - 1]) {
            before.push(keywords[upto - 1])
        } else {
            before
        }
    }
}

/// The meeting apps among the applications in the foreground, from the
/// list of their names that System Events gave: each keyword that occurs
/// in the list, in the order of the keywords; none where the list could
/// not be had.
pub open spec fn active_meeting_apps(osascript: CommandOutcomeView) -> Seq<Seq<char>> {
    match successful_output(osascript) {
        Some(stdout) => keywords_in(stdout, meeting_app_keywords(), 8),
        None => Seq::empty(),
    }
}

/// Those of `keywords` that occur in `text`, in order.
pub fn keywords_found(text: &str, keywords: &Vec<String>) -> (r: Vec<String>)
    ensures
        views(r@) == keywords_in(text@, views(keywords@), keywords@.len() as int),
{
    let ghost all = views(keywords@);
    let mut out: Vec<String> = Vec::new();
    let mut i: usize = 0;
    assert(views(out@) =~= keywords_in(text@, all, 0));
    while i < keywords.len()
        invariant
            i <= keywords.len(),
            all == views(keywords@),
            views(out@) == keywords_in(text@, all, i as int),
        decreases keywords.len() - i,
    {
        let ghost before = views(out@);
        assert(all[i as int] == keywords@[i as int]@);
        if contains(text, keywords[i].as_str()) {
            out.push(keywords[i].clone());
            assert(views(out@) =~= before.push(all[i as int]));
        }
        i += 1;
    }
    out
}

/// The meeting apps among the applications in the foreground, from what
/// System Events answered when asked for their names.
pub fn get_active_meeting_apps(osascript: &CommandOutcome) -> (r: Vec<String>)
    ensures
        views(r@) == active_meeting_apps(osascript@),
{
    if let Some(stdout) = osascript.successful_stdout() {
        let mut keywords: Vec<String> = Vec::new();
        keywords.push("Chrome".to_string());
        keywords.push("Safari".to_string());
        keywords.push("Firefox".to_string());
        keywords.push("zoom".to_string());
        keywords.push("Teams".to_string());
        keywords.push("Slack".to_string());
        keywords.push("WhatsApp".to_string());
        keywords.push("Meet".to_string());
        assert(views(keywords@) =~= meeting_app_keywords());
        keywords_found(stdout, &keywords)
    } else {
        let out: Vec<String> = Vec::new();
        assert(views(out@) =~= Seq::<Seq<char>>::empty());
        out
    }
}

/// The script that asks System Events whether an application runs.
pub open spec fn activity_script(app_name: Seq<char>) -> Seq<char> {
    "\n"@
        + "        tell application \"System Events\"\n"@
        + "            try\n"@
        + "                set appRunning to exists (processes where name contains \""@
        + app_name
        + "\")\n"@
        + "                if appRunning then\n"@
        + "                    set frontmost of process \""@
        + app_name
        + "\" to false\n"@
        + "                    return true\n"@
        + "                end if\n"@
        + "            on error\n"@
        + "                return false\n"@
        + "            end try\n"@
        + "        end tell\n"@
        + "        "@
}

/// The script to hand to `osascript -e` to learn whether an application runs.
pub fn app_activity_script(app_name: &str) -> (r: String)
    ensures
        r@ == activity_script(app_name@),
{
    let mut script = "\n".to_string();
    script.append("        tell application \"System Events\"\n");
    script.append("            try\n");
    script.append("                set appRunning to exists (processes where name contains \"");
    script.append(app_name);
    script.append("\")\n");
    script.append("                if appRunning then\n");
    script.append("                    set frontmost of process \"");
    script.append(app_name);
    script.append("\" to false\n");
    script.append("                    return true\n");
    script.append("                end if\n");
    script.append("            on error\n");
    script.append("                return false\n");
    script.append("            end try\n");
    script.append("        end tell\n");
    script.append("        ");
    assert(script@ =~= activity_script(app_name@));
    script
}

/// Whether an application is active. Where the script ran with success,
/// it is active exactly when the script's answer, trimmed and in lower
/// case, is `true`. Otherwise `pgrep` decides, where it could be run: the
/// application is active when `pgrep` succeeded and printed something.
pub open spec fn app_is_active(
    osascript: CommandOutcomeView,
    pgrep: Option<CommandOutcomeView>,
) -> bool {
    match successful_output(osascript) {
        Some(stdout) => lowercase(trimmed(stdout)) == "true"@,
        None => match pgrep {
            Some(CommandOutcomeView::Ran { success, stdout }) => success && stdout.len() > 0,
            _ => false,
        },
    }
}

/// The view of an optional command outcome.
pub open spec fn outcome_view(o: Option<&CommandOutcome>) -> Option<CommandOutcomeView> {
    match o {
        Some(c) => Some(c@),
        None => None,
    }
}

/// Whether an application is active, from what the script answered and,
/// where the script gave no answer, from what `pgrep -i` answered;
/// `pgrep` is `None` where it was not asked.
pub fn is_app_active(osascript: &CommandOutcome, pgrep: Option<&CommandOutcome>) -> (r: bool)
    ensures
        r == app_is_active(osascript@, outcome_view(pgrep)),
{
    if let Some(stdout) = osascript.successful_stdout() {
        let cs = chars_of(stdout);
        let kept = trim(&cs);
        let body = slice_of(&cs, kept);
        let answer = string_of(&body);
        let lower = to_lowercase(answer.as_str());
        return same_text(lower.as_str(), "true");
    }
    match pgrep {
        Some(CommandOutcome::Ran { success, stdout }) => {
            let cs = chars_of(stdout.as_str());
            *success && cs.len() > 0
        },
        _ => false,
    }
}

/// The application that a line of the privacy log names as a user of the
/// microphone. The line must hold `ALLOW` or `kTCCServiceMicrophone`, and
/// `identifier=`; the name is the word that begins at `identifier=`,
/// without that key and without commas, and must not be empty.
pub open spec fn log_line_app(line: Seq<char>) -> Option<Seq<char>> {
    if (contains_seq(line, "ALLOW"@) || contains_seq(line, "kTCCServiceMicrophone"@))
        && contains_seq(line, "identifier="@) {
        let tail = line.skip(crate::fields::first_index(line, "identifier="@));
        if words(tail).len() > 0 && without(without(words(tail)[0], "identifier="@), ","@).len()
            > 0 {
            Some(without(without(words(tail)[0], "identifier="@), ","@))
        } else {
            None
        }
    } else {
        None
    }
}

/// The application that a line of the privacy log names.
pub fn log_line_application(line: &Vec<char>) -> (r: Option<Vec<char>>)
    ensures
        match r {
            Some(name) => log_line_app(line@) == Some(name@),
            None => log_line_app(line@) is None,
        },
{
    let allow = chars_of("ALLOW");
    let service = chars_of("kTCCServiceMicrophone");
    let key = chars_of("identifier=");
    let comma = chars_of(",");
    proof {
        reveal_strlit("identifier=");
        reveal_strlit(",");
    }
    if find_chars(line, &allow).is_none() && find_chars(line, &service).is_none() {
        return None;
    }
    match find_chars(line, &key) {
        Some(at) => {
            proof {
                crate::fields::lemma_first_index(line@, key@, at as int);
            }
            let tail = slice_of(line, Span { start: at, end: line.len() });
            assert(tail@ =~= line@.skip(at as int));
            let parts = split_words(&tail);
            if parts.len() > 0 {
                let word = slice_of(&tail, parts[0]);
                let bare = remove_all(&word, &key);
                let name = remove_all(&bare, &comma);
                if name.len() > 0 {
                    return Some(name);
                }
            }
            None
        },
        None => None,
    }
}

/// `list`, and `name` after it unless `list` holds it already.
pub open spec fn with_unseen(list: Seq<Seq<char>>, name: Seq<char>) -> Seq<Seq<char>> {
    if list.contains(name) {
        list
    } else {
        list.push(name)
    }
}

/// `list` with the first `upto` of `names` added one by one, each
/// unless the list holds it already.
pub open spec fn with_all_unseen(list: Seq<Seq<char>>, names: Seq<Seq<char>>, upto: int) -> Seq<
    Seq<char>,
>
    decreases upto,
{
    if upto <= 0 {
        list
    } else {
        with_unseen(with_all_unseen(list, names, upto - 1), names[upto - 1])
    }
}

/// Whether a list of names holds `name`.
pub fn holds_name(list: &Vec<String>, name: &str) -> (r: bool)
    ensures
        r == views(list@).contains(name@),
{
    let mut i: usize = 0;
    while i < list.len()
        invariant
            i <= list.len(),
            forall|j: int| 0 <= j < i ==> views(list@)[j] != name@,
        decreases list.len() - i,
    {
        if same_text(list[i].as_str(), name) {
            assert(views(list@)[i as int] == name@);
            return true;
        }
        i += 1;
    }
    false
}

/// Adds `name` to the list unless the list holds it already.
pub fn push_unseen(list: &mut Vec<String>, name: String)
    ensures
        views(final(list)@) == with_unseen(views(old(list)@), name@),
{
    let ghost before = views(list@);
    if !holds_name(list, name.as_str()) {
        list.push(name);
        assert(views(list@) =~= before.push(name@));
    }
}

/// Adds each of `names` to the list, in order, unless the list holds it
/// already.
pub fn push_all_unseen(list: &mut Vec<String>, names: &Vec<String>)
    ensures
        views(final(list)@) == with_all_unseen(
            views(old(list)@),
            views(names@),
            names@.len() as int,
        ),
{
    let ghost start = views(list@);
    let ghost all = views(names@);
    let mut i: usize = 0;
    while i < names.len()
        invariant
            i <= names.len(),
            all == views(names@),
            views(list@) == with_all_unseen(start, all, i as int),
        decreases names.len() - i,
    {
        assert(all[i as int] == names@[i as int]@);
        push_unseen(list, names[i].clone());
        i += 1;
    }
}

/// The applications that the first `upto` of `lines` of the privacy log
/// name, each once, in the order in which they first occur.
pub open spec fn log_apps_upto(lines: Seq<Seq<char>>, upto: int) -> Seq<Seq<char>>
    decreases upto,
{
    if upto <= 0 {
        Seq::empty()
    } else {
        let before = log_apps_upto(lines, upto - 1);
        match log_line_app(lines[upto - 1]) {
            Some(name) => with_unseen(before, name),
            None => before,
        }
    }
}

/// The applications that the privacy log names as users of the
/// microphone, each once, in the order in which they first occur.
pub fn apps_in_microphone_log(log: &str) -> (r: Vec<String>)
    ensures
        views(r@) == log_apps_upto(lines(log@), lines(log@).len() as int),
{
    let cs = chars_of(log);
    let spans = split_lines(&cs);
    let ghost all = lines(cs@);
    let mut out: Vec<String> = Vec::new();
    let mut i: usize = 0;
    assert(views(out@) =~= log_apps_upto(all, 0));
    while i < spans.len()
        invariant
            i <= spans.len(),
            cs@ == log@,
            all == lines(cs@),
            spans_cover(cs@, spans@, all),
            views(out@) == log_apps_upto(all, i as int),
        decreases spans.len() - i,
    {
        let line = slice_of(&cs, spans[i]);
        assert(line@ == all[i as int]);
        if let Some(name) = log_line_application(&line) {
            push_unseen(&mut out, string_of(&name));
        }
        i += 1;
    }
    out
}

/// Whether the list of open files shows the audio daemons at work.
pub open spec fn shows_audio_daemons(lsof: Seq<char>) -> bool {
    contains_seq(lsof, "AppleCameraAssistant"@) || contains_seq(lsof, "coreaudiod"@)
}

/// Whether the answer of `lsof -c AppleCameraAssistant -c coreaudiod`
/// shows the audio daemons at work. Only then are the meeting apps in
/// the foreground counted as users of the microphone.
pub fn audio_daemons_listed(lsof: &str) -> (r: bool)
    ensures
        r == shows_audio_daemons(lsof@),
{
    contains(lsof, "AppleCameraAssistant") || contains(lsof, "coreaudiod")
}

/// The applications that are known to use the microphone in calls.
pub open spec fn known_microphone_apps() -> Seq<Seq<char>> {
    seq![
        "Google Chrome"@,
        "zoom.us"@,
        "Microsoft Teams"@,
        "Slack"@,
        "Safari"@,
        "Firefox"@,
        "WhatsApp"@,
    ]
}

/// Those of the first `upto` of `names` that run, in order.
pub open spec fn running_among(
    names: Seq<Seq<char>>,
    entries: Seq<ProcessEntryView>,
    upto: int,
) -> Seq<Seq<char>>
    decreases upto,
{
    if upto <= 0 {
        Seq::empty()
    } else {
        let before = running_among(names, entries, upto - 1);
        if pid_of(entries, names[upto - 1], entries.len() as int) is Some {
            before.push(names[upto - 1])
        } else {
            before
        }
    }
}

/// Those of `names` that run, in order.
pub fn running_names(names: &Vec<String>, entries: &Vec<ProcessEntry>) -> (r: Vec<String>)
    ensures
        views(r@) == running_among(views(names@), entry_views(entries@), names@.len() as int),
{
    let ghost all = views(names@);
    let ghost processes = entry_views(entries@);
    let mut out: Vec<String> = Vec::new();
    let mut i: usize = 0;
    assert(views(out@) =~= running_among(all, processes, 0));
    while i < names.len()
        invariant
            i <= names.len(),
            all == views(names@),
            processes == entry_views(entries@),
            views(out@) == running_among(all, processes, i as int),
        decreases names.len() - i,
    {
        let ghost before = views(out@);
        assert(all[i as int] == names@[i as int]@);
        if lookup_process(entries, names[i].as_str()).is_some() {
            out.push(names[i].clone());
            assert(views(out@) =~= before.push(all[i as int]));
        }
        i += 1;
    }
    out
}

/// The known microphone apps that run, in their fixed order. Each of
/// them counts as a user of the microphone if it is found active.
pub fn running_microphone_apps(entries: &Vec<ProcessEntry>) -> (r: Vec<String>)
    ensures
        views(r@) == running_among(known_microphone_apps(), entry_views(entries@), 7),
{
    let mut known: Vec<String> = Vec::new();
    known.push("Google Chrome".to_string());
    known.push("zoom.us".to_string());
    known.push("Microsoft Teams".to_string());
    known.push("Slack".to_string());
    known.push("Safari".to_string());
    known.push("Firefox".to_string());
    known.push("WhatsApp".to_string());
    assert(views(known@) =~= known_microphone_apps());
    running_names(&known, entries)
}

/// The applications that use the microphone: those that the privacy log
/// names, then the meeting apps in the foreground, then the known
/// microphone apps that run and are active; each application once, where
/// it first occurs. `log` is `None` where the log could not be read.
pub open spec fn microphone_apps(
    log: Option<Seq<char>>,
    meeting_apps: Seq<Seq<char>>,
    active_known_apps: Seq<Seq<char>>,
) -> Seq<Seq<char>> {
    let from_log = match log {
        Some(text) => log_apps_upto(lines(text), lines(text).len() as int),
        None => Seq::empty(),
    };
    with_all_unseen(
        with_all_unseen(from_log, meeting_apps, meeting_apps.len() as int),
        active_known_apps,
        active_known_apps.len() as int,
    )
}

/// The applications that use the microphone. `meeting_apps` are the
/// meeting apps in the foreground, or none where the audio daemons are not
/// at work; `active_known_apps` are the known microphone apps that run
/// and were found active.
pub fn get_apps_using_microphone(
    log: Option<&str>,
    meeting_apps: &Vec<String>,
    active_known_apps: &Vec<String>,
) -> (r: Result<Vec<String>, String>)
    ensures
        r matches Ok(apps) && views(apps@) == microphone_apps(
            opt_str_view(log),
            views(meeting_apps@),
            views(active_known_apps@),
        ),
{
    let mut apps: Vec<String> = match log {
        Some(text) => apps_in_microphone_log(text),
        None => {
            let empty: Vec<String> = Vec::new();
            assert(views(empty@) =~= Seq::<Seq<char>>::empty());
            empty
        },
    };
    push_all_unseen(&mut apps, meeting_apps);
    push_all_unseen(&mut apps, active_known_apps);
    Ok(apps)
}

/// The text in which a line of `top` gives the processor share of the
/// audio daemon: the second column, without percent signs, of a line
/// that mentions `coreaudiod` and has two columns at least.
pub open spec fn daemon_share_text(line: Seq<char>) -> Option<Seq<char>> {
    if contains_seq(line, "coreaudiod"@) && words(line).len() >= 2 {
        Some(without(words(line)[1], "%"@))
    } else {
        None
    }
}

/// The processor shares that the first `upto` of `lines` give, in order.
pub open spec fn daemon_share_texts(lines: Seq<Seq<char>>, upto: int) -> Seq<Seq<char>>
    decreases upto,
{
    if upto <= 0 {
        Seq::empty()
    } else {
        let before = daemon_share_texts(lines, upto - 1);
        match daemon_share_text(lines[upto - 1]) {
            Some(text) => before.push(text),
            None => before,
        }
    }
}

/// The texts in which `top` gives the processor share of the audio
/// daemon, in order. The first of them that reads as a number above one
/// half decides the level of the output.
pub fn coreaudio_cpu_shares(top: &str) -> (r: Vec<String>)
    ensures
        views(r@) == daemon_share_texts(lines(top@), lines(top@).len() as int),
{
    let cs = chars_of(top);
    let spans = split_lines(&cs);
    let daemon = chars_of("coreaudiod");
    let percent = chars_of("%");
    proof {
        reveal_strlit("%");
    }
    let ghost all = lines(cs@);
    let mut out: Vec<String> = Vec::new();
    let mut i: usize = 0;
    assert(views(out@) =~= daemon_share_texts(all, 0));
    while i < spans.len()
        invariant
            i <= spans.len(),
            cs@ == top@,
            all == lines(cs@),
            spans_cover(cs@, spans@, all),
            daemon@ == "coreaudiod"@,
            percent@ == "%"@,
            percent@.len() > 0,
            views(out@) == daemon_share_texts(all, i as int),
        decreases spans.len() - i,
    {
        let line = slice_of(&cs, spans[i]);
        assert(line@ == all[i as int]);
        let ghost before = views(out@);
        if find_chars(&line, &daemon).is_some() {
            let parts = split_words(&line);
            if parts.len() >= 2 {
                let column = slice_of(&line, parts[1]);
                let share = remove_all(&column, &percent);
                let s = string_of(&share);
                out.push(s);
                assert(views(out@) =~= before.push(share@));
            }
        }
        i += 1;
    }
    out
}

/// The level of the output judged by the processor share of the audio
/// daemon, in percent: none up to one half percent; above it, the share
/// as a fraction, not below 0.1 and not above 1.
pub open spec fn level_of_share(cpu: u32) -> Option<u32> {
    if cpu > 500_000 {
        Some(
            if cpu / 100 > 1_000_000 {
                1_000_000u32
            } else if cpu / 100 < 100_000 {
                100_000u32
            } else {
                (cpu / 100) as u32
            },
        )
    } else {
        None
    }
}

/// The level of the output judged by the processor share of the audio daemon.
pub fn level_from_cpu(cpu: u32) -> (r: Option<u32>)
    ensures
        r == level_of_share(cpu),
{
    if cpu > 500_000 {
        let fraction: u32 = cpu / 100;
        if fraction > 1_000_000 {
            Some(1_000_000)
        } else if fraction < 100_000 {
            Some(100_000)
        } else {
            Some(fraction)
        }
    } else {
        None
    }
}

/// The level of the output when the audio daemon tells nothing: 0.3
/// where an application plays audio, and zero otherwise.
pub fn level_from_apps(any_app_playing: bool) -> (r: u32)
    ensures
        r == if any_app_playing {
            300_000u32
        } else {
            0u32
        },
{
    if any_app_playing {
        300_000
    } else {
        0
    }
}

/// The level that the first of the processor shares from `from` on
/// gives, if one of them gives a level.
pub open spec fn first_share_level(shares: Seq<u32>, from: int) -> Option<u32>
    decreases shares.len() - from,
{
    if 0 <= from < shares.len() {
        match level_of_share(shares[from]) {
            Some(level) => Some(level),
            None => first_share_level(shares, from + 1),
        }
    } else {
        None
    }
}

/// The level of the audio output: that of the first processor share of
/// the audio daemon that gives one; or else 0.3 where an application
/// plays audio, and zero where none does.
pub open spec fn output_level(shares: Seq<u32>, any_app_playing: bool) -> u32 {
    match first_share_level(shares, 0) {
        Some(level) => level,
        None => if any_app_playing {
            300_000
        } else {
            0
        },
    }
}

/// The level of the audio output. `shares` are the processor shares of
/// the audio daemon in percent, in the order in which `top` shows them,
/// those left out that read as no number.
pub fn get_audio_output_peak_level(shares: &Vec<u32>, any_app_playing: bool) -> (r: Result<
    u32,
    String,
>)
    ensures
        r == Ok::<u32, String>(output_level(shares@, any_app_playing)),
{
    let mut i: usize = 0;
    while i < shares.len()
        invariant
            i <= shares.len(),
            first_share_level(shares@, 0) == first_share_level(shares@, i as int),
        decreases shares.len() - i,
    {
        if let Some(level) = level_from_cpu(shares[i]) {
            return Ok(level);
        }
        i += 1;
    }
    Ok(level_from_apps(any_app_playing))
}

/// Whether one of the processor shares gives a level, so that the
/// applications need not be asked.
pub fn share_suffices(shares: &Vec<u32>) -> (r: bool)
    ensures
        r == first_share_level(shares@, 0) is Some,
{
    let mut i: usize = 0;
    while i < shares.len()
        invariant
            i <= shares.len(),
            first_share_level(shares@, 0) == first_share_level(shares@, i as int),
        decreases shares.len() - i,
    {
        if level_from_cpu(shares[i]).is_some() {
            return true;
        }
        i += 1;
    }
    false
}

/// Whether audio is taken to be playing at all: the list of the files
/// that the audio daemon holds open was had, and has more than one line.
pub open spec fn audio_is_active(lsof: CommandOutcomeView) -> bool {
    match any_output(lsof) {
        Some(stdout) => stdout.len() > 0 && lines(stdout).len() > 1,
        None => false,
    }
}

/// Whether audio is taken to be playing at all, from what `lsof -c
/// coreaudiod` answered.
pub fn is_audio_active(lsof: &CommandOutcome) -> (r: bool)
    ensures
        r == audio_is_active(lsof@),
{
    match lsof.stdout() {
        Some(stdout) => {
            let cs = chars_of(stdout);
            let spans = split_lines(&cs);
            cs.len() > 0 && spans.len() > 1
        },
        None => false,
    }
}

/// The applications that are looked for as players of audio.
pub open spec fn audio_app_names() -> Seq<Seq<char>> {
    seq![
        "Google Chrome"@,
        "Chrome"@,
        "Safari"@,
        "Firefox"@,
        "Microsoft Edge"@,
        "Brave Browser"@,
        "zoom.us"@,
        "Zoom"@,
        "Microsoft Teams"@,
        "Teams"@,
        "Slack"@,
        "Discord"@,
        "Skype"@,
        "WhatsApp"@,
        "Telegram"@,
        "Signal"@,
        "FaceTime"@,
        "Music"@,
        "Spotify"@,
        "VLC"@,
        "QuickTime Player"@,
    ]
}

/// The applications that are looked for as players of audio.
pub fn audio_apps() -> (r: Vec<String>)
    ensures
        views(r@) == audio_app_names(),
{
    let mut names: Vec<String> = Vec::new();
    names.push("Google Chrome".to_string());
    names.push("Chrome".to_string());
    names.push("Safari".to_string());
    names.push("Firefox".to_string());
    names.push("Microsoft Edge".to_string());
    names.push("Brave Browser".to_string());
    names.push("zoom.us".to_string());
    names.push("Zoom".to_string());
    names.push("Microsoft Teams".to_string());
    names.push("Teams".to_string());
    names.push("Slack".to_string());
    names.push("Discord".to_string());
    names.push("Skype".to_string());
    names.push("WhatsApp".to_string());
    names.push("Telegram".to_string());
    names.push("Signal".to_string());
    names.push("FaceTime".to_string());
    names.push("Music".to_string());
    names.push("Spotify".to_string());
    names.push("VLC".to_string());
    names.push("QuickTime Player".to_string());
    assert(views(names@) =~= audio_app_names());
    names
}

/// The session reported for a known application that runs as process
/// `pid`. Its title is the window title that was looked up, or its name
/// where the lookup failed. It is active when audio is playing at all or
/// when name and title hint at audio; an active session has the level
/// assumed for its kind, another has level zero.
pub open spec fn known_app_session(
    app_name: Seq<char>,
    pid: u32,
    title: Result<Seq<char>, Seq<char>>,
    audio_active: bool,
) -> AudioAppSessionView {
    let window_title = match title {
        Ok(t) => t,
        Err(_) => app_name,
    };
    let is_active = audio_active || hints_at_audio(lowercase(spaced(app_name, window_title)));
    AudioAppSessionView {
        name: app_name,
        volume: ASSUMED_APP_VOLUME,
        is_active,
        peak_level: if is_active {
            assumed_level(lowercase(spaced(app_name, window_title)))
        } else {
            0
        },
        process_id: pid,
        window_title,
    }
}

/// The session reported for a known application that runs as process `pid`.
pub fn session_for(app_name: &str, pid: u32, title: Result<String, String>, audio_active: bool) -> (r:
    AudioAppSession)
    ensures
        r@ == known_app_session(app_name@, pid, result_view(title), audio_active),
{
    let window_title = match title {
        Ok(t) => t,
        Err(_) => app_name.to_string(),
    };
    let is_active = audio_active || is_app_likely_playing_audio(app_name, window_title.as_str());
    let peak_level = if is_active {
        estimate_app_audio_level(app_name, window_title.as_str())
    } else {
        0
    };
    AudioAppSession {
        name: app_name.to_string(),
        volume: ASSUMED_APP_VOLUME,
        is_active,
        peak_level,
        process_id: pid,
        window_title,
    }
}

/// The session reported for a process that keeps the system awake: it is
/// taken to play audio at level 0.2. Its title is the window title that
/// was looked up, or its name where the lookup failed.
pub open spec fn wakeful_session(
    process_name: Seq<char>,
    pid: u32,
    title: Result<Seq<char>, Seq<char>>,
) -> AudioAppSessionView {
    AudioAppSessionView {
        name: process_name,
        volume: ASSUMED_APP_VOLUME,
        is_active: true,
        peak_level: 200_000,
        process_id: pid,
        window_title: match title {
            Ok(t) => t,
            Err(_) => process_name,
        },
    }
}

/// The session reported for a process that keeps the system awake.
pub fn session_for_wakeful(process_name: &str, pid: u32, title: Result<String, String>) -> (r:
    AudioAppSession)
    ensures
        r@ == wakeful_session(process_name@, pid, result_view(title)),
{
    let window_title = match title {
        Ok(t) => t,
        Err(_) => process_name.to_string(),
    };
    AudioAppSession {
        name: process_name.to_string(),
        volume: ASSUMED_APP_VOLUME,
        is_active: true,
        peak_level: 200_000,
        process_id: pid,
        window_title,
    }
}

/// Whether the power assertions show that something keeps the system awake.
pub open spec fn shows_wakefulness(pmset: Seq<char>) -> bool {
    contains_seq(pmset, "PreventUserIdleSystemSleep"@) || contains_seq(
        pmset,
        "NoIdleSleepAssertion"@,
    )
}

/// The process that a line of `pmset -g assertions` names: the word
/// after the first `Process=` of the line, without commas and double
/// quotes. A line without `Process=`, or with nothing but white space
/// after it, names none.
pub open spec fn assertion_process(line: Seq<char>) -> Option<Seq<char>> {
    match after_seq(line, "Process="@) {
        Some(rest) => if words(rest).len() > 0 {
            Some(without(without(words(rest)[0], ","@), "\""@))
        } else {
            None
        },
        None => None,
    }
}

/// The process that a line of `pmset -g assertions` names.
pub fn assertion_process_of(line: &Vec<char>) -> (r: Option<Vec<char>>)
    ensures
        match r {
            Some(name) => assertion_process(line@) == Some(name@),
            None => assertion_process(line@) is None,
        },
{
    let key = chars_of("Process=");
    let comma = chars_of(",");
    let quote = chars_of("\"");
    proof {
        reveal_strlit(",");
        reveal_strlit("\"");
    }
    match after_first(line, &key) {
        Some(span) => {
            let rest = slice_of(line, span);
            let parts = split_words(&rest);
            if parts.len() > 0 {
                let word = slice_of(&rest, parts[0]);
                let bare = remove_all(&word, &comma);
                Some(remove_all(&bare, &quote))
            } else {
                None
            }
        },
        None => None,
    }
}

/// A running process that may be reported as a session: one of the known
/// audio apps, or a process that keeps the system awake.
pub struct Candidate {
    pub name: Seq<char>,
    pub pid: u32,
    pub wakeful: bool,
}

/// The candidates among the known audio apps: one for each of `names`
/// that runs, in order.
pub open spec fn known_candidates(names: Seq<Seq<char>>, running: Seq<ProcessEntryView>) -> Seq<
    Candidate,
>
    decreases names.len(),
{
    if names.len() == 0 {
        Seq::empty()
    } else {
        let before = known_candidates(names.drop_last(), running);
        match pid_of(running, names.last(), running.len() as int) {
            Some(pid) => before.push(Candidate { name: names.last(), pid, wakeful: false }),
            None => before,
        }
    }
}

/// The candidates among the processes that keep the system awake: one
/// for each of `lines` that names a process that runs, in order.
pub open spec fn wakeful_candidates(lines: Seq<Seq<char>>, running: Seq<ProcessEntryView>) -> Seq<
    Candidate,
>
    decreases lines.len(),
{
    if lines.len() == 0 {
        Seq::empty()
    } else {
        let before = wakeful_candidates(lines.drop_last(), running);
        match assertion_process(lines.last()) {
            Some(name) => match pid_of(running, name, running.len() as int) {
                Some(pid) => before.push(Candidate { name, pid, wakeful: true }),
                None => before,
            },
            None => before,
        }
    }
}

/// All candidates: the known audio apps that run, in their fixed order;
/// then, where the power assertions were had and show that something
/// keeps the system awake, the processes that they name.
pub open spec fn candidates(running: Seq<ProcessEntryView>, pmset: CommandOutcomeView) -> Seq<
    Candidate,
> {
    known_candidates(audio_app_names(), running) + match any_output(pmset) {
        Some(stdout) => if shows_wakefulness(stdout) {
            wakeful_candidates(lines(stdout), running)
        } else {
            Seq::empty()
        },
        None => Seq::empty(),
    }
}

/// One of `list` is the process `pid`.
pub open spec fn has_pid(list: Seq<Candidate>, pid: u32) -> bool {
    exists|k: int| 0 <= k < list.len() && (#[trigger] list[k]).pid == pid
}

/// The candidates without those whose process has occurred before.
pub open spec fn first_of_each(list: Seq<Candidate>) -> Seq<Candidate>
    decreases list.len(),
{
    if list.len() == 0 {
        Seq::empty()
    } else {
        let before = first_of_each(list.drop_last());
        if has_pid(before, list.last().pid) {
            before
        } else {
            before.push(list.last())
        }
    }
}

/// `session` is what is reported for `candidate`, under the window
/// title that it carries.
pub open spec fn reports_candidate(
    session: AudioAppSessionView,
    candidate: Candidate,
    audio_active: bool,
) -> bool {
    session == if candidate.wakeful {
        wakeful_session(candidate.name, candidate.pid, Ok(session.window_title))
    } else {
        known_app_session(candidate.name, candidate.pid, Ok(session.window_title), audio_active)
    }
}

/// `sessions` holds, in order, what is reported for each of `accepted`.
pub open spec fn reports_all(
    sessions: Seq<AudioAppSession>,
    accepted: Seq<Candidate>,
    audio_active: bool,
) -> bool {
    &&& sessions.len() == accepted.len()
    &&& forall|k: int|
        0 <= k < sessions.len() ==> #[trigger] reports_candidate(
            sessions[k]@,
            accepted[k],
            audio_active,
        )
}

/// Whether one of the sessions belongs to process `pid`.
pub fn has_session_of(sessions: &Vec<AudioAppSession>, pid: u32) -> (r: bool)
    ensures
        r == exists|i: int| 0 <= i < sessions@.len() && (#[trigger] sessions@[i]).process_id == pid,
{
    let mut i: usize = 0;
    while i < sessions.len()
        invariant
            i <= sessions.len(),
            forall|j: int| 0 <= j < i ==> (#[trigger] sessions@[j]).process_id != pid,
        decreases sessions.len() - i,
    {
        if sessions[i].process_id == pid {
            return true;
        }
        i += 1;
    }
    false
}

/// Reports a candidate, unless its process is reported already. The
/// title of its window is asked of the platform.
fn consider<P: PlatformUtils>(
    apps: &mut Vec<AudioAppSession>,
    name: &str,
    pid: u32,
    wakeful: bool,
    audio_active: bool,
    Ghost(seen): Ghost<Seq<Candidate>>,
)
    requires
        reports_all(old(apps)@, first_of_each(seen), audio_active),
    ensures
        reports_all(
            final(apps)@,
            first_of_each(seen.push(Candidate { name: name@, pid, wakeful })),
            audio_active,
        ),
{
    let ghost candidate = Candidate { name: name@, pid, wakeful };
    let ghost accepted = first_of_each(seen);
    let ghost before = apps@;
    assert(seen.push(candidate).drop_last() =~= seen);
    let reported = has_session_of(apps, pid);
    proof {
        if reported {
            let i = choose|i: int| 0 <= i < before.len() && (#[trigger] before[i]).process_id == pid;
            assert(reports_candidate(before[i]@, accepted[i], audio_active));
            assert(accepted[i].pid == pid);
        }
        if has_pid(accepted, pid) {
            let k = choose|k: int| 0 <= k < accepted.len() && (#[trigger] accepted[k]).pid == pid;
            assert(reports_candidate(before[k]@, accepted[k], audio_active));
            assert(before[k].process_id == pid);
        }
    }
    if !reported {
        let title = P::get_window_title(pid);
        let session = if wakeful {
            session_for_wakeful(name, pid, title)
        } else {
            session_for(name, pid, title, audio_active)
        };
        assert(reports_candidate(session@, candidate, audio_active));
        apps.push(session);
        assert forall|k: int| 0 <= k < apps@.len() implies #[trigger] reports_candidate(
            apps@[k]@,
            accepted.push(candidate)[k],
            audio_active,
        ) by {
            if k < before.len() {
                assert(apps@[k] == before[k]);
                assert(reports_candidate(before[k]@, accepted[k], audio_active));
            }
        }
    }
}

/// The applications that play audio: first the known audio apps that
/// run, in their fixed order; then, where the power assertions show that
/// something keeps the system awake, the processes that they name. A
/// process is reported once, where it first occurs, and the title of its
/// window is asked of the platform.
pub fn get_apps_playing_audio<P: PlatformUtils>(
    lsof: &CommandOutcome,
    ps: &CommandOutcome,
    pmset: &CommandOutcome,
) -> (r: Result<Vec<AudioAppSession>, String>)
    ensures
        r matches Ok(sessions) && reports_all(
            sessions@,
            first_of_each(candidates(running_processes(ps@), pmset@)),
            audio_is_active(lsof@),
        ),
{
    let mut apps: Vec<AudioAppSession> = Vec::new();
    let audio_active = is_audio_active(lsof);
    let running = get_running_processes(ps);
    let names = audio_apps();
    let ghost processes = entry_views(running@);
    let ghost all_names = views(names@);
    let ghost mut seen: Seq<Candidate> = Seq::empty();
    let mut i: usize = 0;
    assert(all_names.take(0) =~= Seq::<Seq<char>>::empty());
    while i < names.len()
        invariant
            i <= names.len(),
            all_names == views(names@),
            all_names == audio_app_names(),
            processes == entry_views(running@),
            seen == known_candidates(all_names.take(i as int), processes),
            reports_all(apps@, first_of_each(seen), audio_active),
        decreases names.len() - i,
    {
        proof {
            assert(all_names.take(i + 1).drop_last() =~= all_names.take(i as int));
            assert(all_names.take(i + 1).last() == names@[i as int]@);
        }
        if let Some(pid) = lookup_process(&running, names[i].as_str()) {
            consider::<P>(&mut apps, names[i].as_str(), pid, false, audio_active, Ghost(seen));
            proof {
                seen = seen.push(Candidate { name: names@[i as int]@, pid, wakeful: false });
            }
        }
        i += 1;
    }
    assert(all_names.take(all_names.len() as int) =~= all_names);
    let ghost known = seen;
    let ghost mut wakeful: Seq<Candidate> = Seq::empty();
    assert(known + wakeful =~= known);
    if let Some(stdout) = pmset.stdout() {
        if contains(stdout, "PreventUserIdleSystemSleep") || contains(stdout, "NoIdleSleepAssertion") {
            let cs = chars_of(stdout);
            let spans = split_lines(&cs);
            let ghost all_lines = lines(cs@);
            let mut k: usize = 0;
            assert(all_lines.take(0) =~= Seq::<Seq<char>>::empty());
            while k < spans.len()
                invariant
                    k <= spans.len(),
                    all_lines == lines(cs@),
                    spans_cover(cs@, spans@, all_lines),
                    processes == entry_views(running@),
                    wakeful == wakeful_candidates(all_lines.take(k as int), processes),
                    reports_all(apps@, first_of_each(known + wakeful), audio_active),
                decreases spans.len() - k,
            {
                let line = slice_of(&cs, spans[k]);
                proof {
                    assert(all_lines.take(k + 1).drop_last() =~= all_lines.take(k as int));
                    assert(all_lines.take(k + 1).last() == line@);
                }
                if let Some(name) = assertion_process_of(&line) {
                    let process_name = string_of(&name);
                    if let Some(pid) = lookup_process(&running, process_name.as_str()) {
                        consider::<P>(
                            &mut apps,
                            process_name.as_str(),
                            pid,
                            true,
                            audio_active,
                            Ghost(known + wakeful),
                        );
                        proof {
                            let candidate = Candidate { name: name@, pid, wakeful: true };
                            assert((known + wakeful).push(candidate) =~= known + wakeful.push(
                                candidate,
                            ));
                            wakeful = wakeful.push(candidate);
                        }
                    }
                }
                k += 1;
            }
            assert(all_lines.take(all_lines.len() as int) =~= all_lines);
        }
    }
    Ok(apps)
}

/// Of the candidates, each process is reported once: no two of those
/// that are reported are the same process, each of them is a candidate,
/// and the process of every candidate is among them.
pub proof fn law_each_process_is_reported_once(list: Seq<Candidate>)
    ensures
        forall|i: int, j: int|
            0 <= i < j < first_of_each(list).len() ==> (#[trigger] first_of_each(list)[i]).pid != (
            #[trigger] first_of_each(list)[j]).pid,
        forall|k: int|
            0 <= k < first_of_each(list).len() ==> list.contains(#[trigger] first_of_each(list)[k]),
        forall|k: int|
            0 <= k < list.len() ==> has_pid(first_of_each(list), (#[trigger] list[k]).pid),
    decreases list.len(),
{
    if list.len() > 0 {
        let shorter = list.drop_last();
        let before = first_of_each(shorter);
        let now_all = first_of_each(list);
        law_each_process_is_reported_once(shorter);
        assert forall|k: int| 0 <= k < now_all.len() implies list.contains(
            #[trigger] now_all[k],
        ) by {
            if k < before.len() {
                assert(shorter.contains(before[k]));
                let at = choose|at: int| 0 <= at < shorter.len() && shorter[at] == before[k];
                assert(list[at] == before[k]);
            } else {
                assert(list[list.len() - 1] == now_all[k]);
            }
        }
        assert forall|k: int| 0 <= k < list.len() implies has_pid(
            now_all,
            (#[trigger] list[k]).pid,
        ) by {
            if k < list.len() - 1 {
                assert(shorter[k] == list[k]);
                assert(has_pid(before, shorter[k].pid));
                let at = choose|at: int|
                    0 <= at < before.len() && (#[trigger] before[at]).pid == list[k].pid;
                assert(now_all[at].pid == list[k].pid);
            } else if has_pid(before, list.last().pid) {
            } else {
                assert(now_all[now_all.len() - 1].pid == list[k].pid);
            }
        }
    }
}

} // verus!
