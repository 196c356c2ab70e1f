//! Linux: what is made of the answers of PulseAudio and of its tools.

use vstd::prelude::*;
use crate::audio::{AudioAppSession, AudioAppSessionView, AudioInfo};
use crate::correlation_engine::opt_view;
use crate::fields::{
    has_prefix, lines, slice_of, spans_cover, split_char, split_lines, split_on, split_words,
    starts_with, trim, trimmed, words, Span,
};
use crate::monitor::clone_opt;
use crate::network_monitor::{parse_pid, parsed_pid};
use crate::platform::result_view;
use crate::text::{chars_of, contains_seq, find_chars, occurs_at, string_of, views};

verus! {

/// The raw volume that PulseAudio reports for 100 percent.
pub const VOLUME_NORMAL: u32 = 65536;

/// What became of a question to PulseAudio.
#[derive(Debug)]
pub enum PulseAnswer<T> {
    /// No connection to PulseAudio could be made.
    Unavailable,
    /// The connection was made, and no answer came in time.
    NoAnswer,
    /// The answer.
    Answer(T),
}

/// Volume and mute state as PulseAudio reports them.
#[derive(Debug, Clone, Copy, PartialEq, Eq, Structural)]
pub struct RawVolume {
    /// The average of the channels, where `VOLUME_NORMAL` is 100 percent.
    pub average: u32,
    pub mute: bool,
}

/// A raw volume in percent; a volume too large to be held is the
/// greatest that can be.
pub open spec fn percent_of(raw: u32) -> u32 {
    if raw as int * 100_000_000 / (VOLUME_NORMAL as int) <= u32::MAX {
        (raw as int * 100_000_000 / (VOLUME_NORMAL as int)) as u32
    } else {
        u32::MAX
    }
}

/// A raw volume in percent.
pub fn volume_percent(raw: u32) -> (r: u32)
    ensures
        r == percent_of(raw),
{
    let scaled: u64 = raw as u64 * 100_000_000 / (VOLUME_NORMAL as u64);
    if scaled <= u32::MAX as u64 {
        scaled as u32
    } else {
        u32::MAX
    }
}

/// The state of a device from PulseAudio's answer. Without PulseAudio the
/// device counts as muted at volume zero; an answer that did not come is
/// an error with the message `missing`.
pub open spec fn device_state(answer: PulseAnswer<RawVolume>, missing: Seq<char>) -> Result<
    AudioInfo,
    Seq<char>,
> {
    match answer {
        PulseAnswer::Unavailable => Ok(AudioInfo { volume: 0, is_muted: true }),
        PulseAnswer::NoAnswer => Err(missing),
        PulseAnswer::Answer(raw) => Ok(
            AudioInfo { volume: percent_of(raw.average), is_muted: raw.mute },
        ),
    }
}

/// The view of a device state or of the error in its place.
pub open spec fn state_view(r: Result<AudioInfo, String>) -> Result<AudioInfo, Seq<char>> {
    match r {
        Ok(info) => Ok(info),
        Err(e) => Err(e@),
    }
}

/// Volume and mute state of the default microphone.
pub fn get_microphone_volume_and_mute(answer: PulseAnswer<RawVolume>) -> (r: Result<
    AudioInfo,
    String,
>)
    ensures
        state_view(r) == device_state(answer, "Failed to get microphone info"@),
{
    match answer {
        PulseAnswer::Unavailable => Ok(AudioInfo { volume: 0, is_muted: true }),
        PulseAnswer::NoAnswer => Err("Failed to get microphone info".to_string()),
        PulseAnswer::Answer(raw) => Ok(
            AudioInfo { volume: volume_percent(raw.average), is_muted: raw.mute },
        ),
    }
}

/// Volume and mute state of the default output device.
pub fn get_audio_output_volume_and_mute(answer: PulseAnswer<RawVolume>) -> (r: Result<
    AudioInfo,
    String,
>)
    ensures
        state_view(r) == device_state(answer, "Failed to get audio output info"@),
{
    match answer {
        PulseAnswer::Unavailable => Ok(AudioInfo { volume: 0, is_muted: true }),
        PulseAnswer::NoAnswer => Err("Failed to get audio output info".to_string()),
        PulseAnswer::Answer(raw) => Ok(
            AudioInfo { volume: volume_percent(raw.average), is_muted: raw.mute },
        ),
    }
}

/// The name of a device from PulseAudio's answer, which is the
/// description of the device where it has one; `fallback` in every other case.
pub open spec fn device_name(
    answer: PulseAnswer<Option<String>>,
    fallback: Seq<char>,
) -> Seq<char> {
    match answer {
        PulseAnswer::Answer(Some(description)) => description@,
        _ => fallback,
    }
}

/// The name of the default microphone.
pub fn get_microphone_device_name(answer: PulseAnswer<Option<String>>) -> (r: Result<
    String,
    String,
>)
    ensures
        result_view(r) == Ok::<Seq<char>, Seq<char>>(device_name(answer, "Default Microphone"@)),
{
    match answer {
        PulseAnswer::Answer(Some(description)) => Ok(description),
        _ => Ok("Default Microphone".to_string()),
    }
}

/// The name of the default output device.
pub fn get_audio_output_device_name(answer: PulseAnswer<Option<String>>) -> (r: Result<
    String,
    String,
>)
    ensures
        result_view(r) == Ok::<Seq<char>, Seq<char>>(device_name(answer, "Default Speakers"@)),
{
    match answer {
        PulseAnswer::Answer(Some(description)) => Ok(description),
        _ => Ok("Default Speakers".to_string()),
    }
}

/// The properties of a stream that the monitors read.
#[derive(Debug)]
pub struct StreamProperties {
    /// `application.process.binary`
    pub process_binary: Option<String>,
    /// `application.name`
    pub application_name: Option<String>,
    /// `application.process.id`
    pub process_id: Option<String>,
    /// `window.name`
    pub window_name: Option<String>,
}

/// What a `StreamProperties` holds, with its texts as character sequences.
pub struct StreamPropertiesView {
    pub process_binary: Option<Seq<char>>,
    pub application_name: Option<Seq<char>>,
    pub process_id: Option<Seq<char>>,
    pub window_name: Option<Seq<char>>,
}

impl View for StreamProperties {
    type V = StreamPropertiesView;

    open spec fn view(&self) -> StreamPropertiesView {
        StreamPropertiesView {
            process_binary: opt_view(self.process_binary),
            application_name: opt_view(self.application_name),
            process_id: opt_view(self.process_id),
            window_name: opt_view(self.window_name),
        }
    }
}

/// The name under which a stream's application goes: its binary, or else
/// its application name.
pub open spec fn stream_app_name(props: StreamPropertiesView) -> Option<Seq<char>> {
    match props.process_binary {
        Some(binary) => Some(binary),
        None => props.application_name,
    }
}

/// The name under which a stream's application goes.
pub fn app_name_of(props: &StreamProperties) -> (r: Option<String>)
    ensures
        opt_view(r) == stream_app_name(props@),
{
    match &props.process_binary {
        Some(binary) => Some(binary.clone()),
        None => clone_opt(&props.application_name),
    }
}

/// The view of the properties that a stream may have.
pub open spec fn props_view(o: Option<StreamProperties>) -> Option<StreamPropertiesView> {
    match o {
        Some(p) => Some(p@),
        None => None,
    }
}

/// The names of the applications behind the first `upto` recording
/// streams: one for each stream that has properties and a name, in order.
pub open spec fn recording_apps(streams: Seq<Option<StreamProperties>>, upto: int) -> Seq<
    Seq<char>,
>
    decreases upto,
{
    if upto <= 0 {
        Seq::empty()
    } else {
        let before = recording_apps(streams, upto - 1);
        match props_view(streams[upto - 1]) {
            Some(props) => match stream_app_name(props) {
                Some(name) => before.push(name),
                None => before,
            },
            None => before,
        }
    }
}

/// The applications that use the microphone, from the recording streams
/// that PulseAudio lists; `None` where no connection to it could be made,
/// which counts as no application.
pub fn get_apps_using_microphone(streams: Option<&Vec<Option<StreamProperties>>>) -> (r: Result<
    Vec<String>,
    String,
>)
    ensures
        r matches Ok(apps) && views(apps@) == match streams {
            Some(list) => recording_apps(list@, list@.len() as int),
            None => Seq::empty(),
        },
{
    let mut out: Vec<String> = Vec::new();
    assert(views(out@) =~= Seq::<Seq<char>>::empty());
    if let Some(list) = streams {
        let mut i: usize = 0;
        assert(views(out@) =~= recording_apps(list@, 0));
        while i < list.len()
            invariant
                i <= list.len(),
                views(out@) == recording_apps(list@, i as int),
            decreases list.len() - i,
        {
            let ghost before = views(out@);
            if let Some(props) = &list[i] {
                if let Some(name) = app_name_of(props) {
                    out.push(name);
                    assert(views(out@) =~= before.push(name@));
                }
            }
            i += 1;
        }
    }
    Ok(out)
}

/// A stream that plays audio.
#[derive(Debug)]
pub struct SinkInput {
    pub properties: Option<StreamProperties>,
    /// The raw volume averaged over the channels.
    pub volume: u32,
    /// Whether the stream is paused.
    pub corked: bool,
}

/// The process id that a stream's properties give: the number in
/// `application.process.id`, or zero where there is none.
pub open spec fn stream_pid(props: StreamPropertiesView) -> u32 {
    match props.process_id {
        Some(text) => match parsed_pid(text) {
            Some(pid) => pid,
            None => 0,
        },
        None => 0,
    }
}

/// The session that a playing stream is reported as. A stream without
/// properties has no name, no process and no title; the title of another
/// is its window name, or else the name of its application.
pub open spec fn session_of(
    properties: Option<StreamPropertiesView>,
    volume: u32,
    corked: bool,
) -> AudioAppSessionView {
    let name = match properties {
        Some(props) => match stream_app_name(props) {
            Some(n) => n,
            None => Seq::empty(),
        },
        None => Seq::empty(),
    };
    AudioAppSessionView {
        name,
        volume: percent_of(volume),
        is_active: !corked,
        peak_level: 0,
        process_id: match properties {
            Some(props) => stream_pid(props),
            None => 0,
        },
        window_title: match properties {
            Some(props) => match props.window_name {
                Some(title) => title,
                None => name,
            },
            None => Seq::empty(),
        },
    }
}

/// The session that a playing stream is reported as.
pub fn session_from(input: &SinkInput) -> (r: AudioAppSession)
    ensures
        r@ == session_of(props_view(input.properties), input.volume, input.corked),
{
    let mut app_name = String::new();
    let mut process_id: u32 = 0;
    let mut window_title = String::new();
    if let Some(props) = &input.properties {
        if let Some(name) = app_name_of(props) {
            app_name = name;
        }
        if let Some(pid_str) = &props.process_id {
            let cs = chars_of(pid_str.as_str());
            process_id = match parse_pid(&cs) {
                Some(pid) => pid,
                None => 0,
            };
        }
        window_title = match &props.window_name {
            Some(title) => title.clone(),
            None => app_name.clone(),
        };
    }
    AudioAppSession {
        name: app_name,
        volume: volume_percent(input.volume),
        is_active: !input.corked,
        peak_level: 0,
        process_id,
        window_title,
    }
}

/// The applications that play audio, from the playing streams that
/// PulseAudio lists, one session for each stream in order; `None` where
/// no connection to it could be made, which counts as no stream.
pub fn get_apps_playing_audio(inputs: Option<&Vec<SinkInput>>) -> (r: Result<
    Vec<AudioAppSession>,
    String,
>)
    ensures
        r matches Ok(sessions) && match inputs {
            Some(list) => {
                &&& sessions@.len() == list@.len()
                &&& forall|i: int|
                    0 <= i < list@.len() ==> (#[trigger] sessions@[i])@ == session_of(
                        props_view(list@[i].properties),
                        list@[i].volume,
                        list@[i].corked,
                    )
            },
            None => sessions@.len() == 0,
        },
{
    let mut out: Vec<AudioAppSession> = Vec::new();
    if let Some(list) = inputs {
        let mut i: usize = 0;
        while i < list.len()
            invariant
                i <= list.len(),
                out@.len() == i,
                forall|j: int|
                    0 <= j < i ==> (#[trigger] out@[j])@ == session_of(
                        props_view(list@[j].properties),
                        list@[j].volume,
                        list@[j].corked,
                    ),
            decreases list.len() - i,
        {
            out.push(session_from(&list[i]));
            i += 1;
        }
    }
    Ok(out)
}

/// The level assumed when streams are playing: 0.3, and 0.1 more for
/// each stream up to 0.6 more.
pub open spec fn level_of_streams(count: nat) -> u32 {
    if count >= 6 {
        900_000
    } else {
        (300_000 + count * 100_000) as u32
    }
}

/// How often `pattern` occurs in `s`, the occurrences counted from left
/// to right without overlap; an empty pattern is not counted.
pub open spec fn count_of(s: Seq<char>, pattern: Seq<char>) -> nat
    decreases s.len(),
{
    if pattern.len() > 0 && contains_seq(s, pattern) {
        let at = crate::fields::first_index(s, pattern);
        if 0 <= at && at + pattern.len() <= s.len() {
            1 + count_of(s.skip(at + pattern.len()), pattern)
        } else {
            0
        }
    } else {
        0
    }
}

/// How often `pattern` occurs in the text.
pub fn count_occurrences(cs: &Vec<char>, pattern: &Vec<char>) -> (r: usize)
    ensures
        r == count_of(cs@, pattern@),
{
    if pattern.len() == 0 {
        return 0;
    }
    let mut count: usize = 0;
    let total: usize = cs.len();
    let mut rest: Vec<char> = slice_of(cs, Span { start: 0, end: total });
    assert(rest@ =~= cs@);
    loop
        invariant
            pattern@.len() > 0,
            count_of(cs@, pattern@) == count + count_of(rest@, pattern@),
            count + rest@.len() <= total,
        decreases rest@.len(),
    {
        match find_chars(&rest, pattern) {
            Some(at) => {
                proof {
                    crate::fields::lemma_first_index(rest@, pattern@, at as int);
                    assert(occurs_at(rest@, pattern@, at as int));
                }
                let end: usize = rest.len();
                let tail = slice_of(&rest, Span { start: at + pattern.len(), end });
                assert(tail@ =~= rest@.skip(at + pattern@.len()));
                count += 1;
                rest = tail;
            },
            None => {
                return count;
            },
        }
    }
}

/// The level of the output judged by the playing streams that
/// `pactl list sink-inputs` lists: none where it lists no stream.
pub open spec fn stream_level(listing: Seq<char>) -> Option<u32> {
    if count_of(listing, "Sink Input #"@) > 0 {
        Some(level_of_streams(count_of(listing, "Sink Input #"@)))
    } else {
        None
    }
}

/// The level of the output judged by the playing streams that
/// `pactl list sink-inputs` lists.
pub fn level_from_streams(listing: &str) -> (r: Option<u32>)
    ensures
        r == stream_level(listing@),
{
    let cs = chars_of(listing);
    let marker = chars_of("Sink Input #");
    proof {
        reveal_strlit("Sink Input #");
    }
    let count = count_occurrences(&cs, &marker);
    if count > 0 {
        if count >= 6 {
            Some(900_000)
        } else {
            Some(300_000 + (count as u32) * 100_000)
        }
    } else {
        None
    }
}

/// The level of the output judged by the volume of a running sink: half
/// of the volume, which counts as full above 100 percent.
pub open spec fn level_of_volume(volume: u32) -> u32 {
    if volume >= 100_000_000 {
        500_000
    } else {
        (volume / 200) as u32
    }
}

/// The level of the output judged by the volume of a running sink, in percent.
pub fn level_from_volume(volume: u32) -> (r: u32)
    ensures
        r == level_of_volume(volume),
        r <= 500_000,
{
    if volume >= 100_000_000 {
        500_000
    } else {
        volume / 200
    }
}

/// The text in which a line of `pactl list sinks` gives a volume in
/// percent: the line, without surrounding white space, begins with
/// `Volume:`, and the text is what stands between its first and second
/// slash, trimmed, without the percent sign that must end it.
pub open spec fn volume_text(line: Seq<char>) -> Option<Seq<char>> {
    let pieces = split_on(line, '/');
    if has_prefix(trimmed(line), "Volume:"@) && pieces.len() >= 2 && trimmed(pieces[1]).len() > 0
        && trimmed(pieces[1]).last() == '%' {
        Some(trimmed(pieces[1]).drop_last())
    } else {
        None
    }
}

/// The text in which a line of `pactl list sinks` gives a volume in percent.
pub fn volume_text_of(line: &Vec<char>) -> (r: Option<Vec<char>>)
    ensures
        match r {
            Some(t) => volume_text(line@) == Some(t@),
            None => volume_text(line@) is None,
        },
{
    let kept = trim(line);
    let body = slice_of(line, kept);
    let marker = chars_of("Volume:");
    if !starts_with(&body, &marker) {
        return None;
    }
    let pieces = split_char(line, '/');
    if pieces.len() < 2 {
        return None;
    }
    let second = slice_of(line, pieces[1]);
    let inner = trim(&second);
    let text = slice_of(&second, inner);
    if text.len() > 0 && text[text.len() - 1] == '%' {
        let digits = slice_of(&text, Span { start: 0, end: text.len() - 1 });
        assert(digits@ =~= text@.drop_last());
        Some(digits)
    } else {
        None
    }
}

/// The volume texts of the first `upto` of `lines`, in order: one for
/// each line that gives a volume and stands at or after the first line
/// that reports a running sink.
pub open spec fn running_volume_texts(lines: Seq<Seq<char>>, upto: int) -> Seq<Seq<char>>
    decreases upto,
{
    if upto <= 0 {
        Seq::empty()
    } else {
        let before = running_volume_texts(lines, upto - 1);
        match volume_text(lines[upto - 1]) {
            Some(text) => if running_seen(lines, upto) {
                before.push(text)
            } else {
                before
            },
            None => before,
        }
    }
}

/// One of the first `upto` of `lines` reports a running sink.
pub open spec fn running_seen(lines: Seq<Seq<char>>, upto: int) -> bool {
    exists|i: int| 0 <= i < upto && i < lines.len() && contains_seq(
        #[trigger] lines[i],
        "State: RUNNING"@,
    )
}

/// The texts in which `pactl list sinks` gives the volumes of running
/// sinks, in order. The first of them that reads as a number above zero
/// is the volume by which the level of the output is judged.
pub fn running_sink_volumes(listing: &str) -> (r: Vec<String>)
    ensures
        views(r@) == running_volume_texts(lines(listing@), lines(listing@).len() as int),
{
    let cs = chars_of(listing);
    let spans = split_lines(&cs);
    let running = chars_of("State: RUNNING");
    let ghost all = lines(cs@);
    let mut out: Vec<String> = Vec::new();
    let mut in_running_sink = false;
    let mut i: usize = 0;
    assert(views(out@) =~= running_volume_texts(all, 0));
    while i < spans.len()
        invariant
            i <= spans.len(),
            cs@ == listing@,
            all == lines(cs@),
            spans_cover(cs@, spans@, all),
            running@ == "State: RUNNING"@,
            in_running_sink == running_seen(all, i as int),
            views(out@) == running_volume_texts(all, i as int),
        decreases spans.len() - i,
    {
        let line = slice_of(&cs, spans[i]);
        assert(line@ == all[i as int]);
        let ghost seen_before = running_seen(all, i as int);
        if find_chars(&line, &running).is_some() {
            in_running_sink = true;
        }
        proof {
            if contains_seq(line@, "State: RUNNING"@) {
                assert(0 <= i < i + 1 && contains_seq(all[i as int], "State: RUNNING"@));
            }
            if seen_before {
                let j = choose|j: int|
                    0 <= j < i && j < all.len() && contains_seq(
                        #[trigger] all[j],
                        "State: RUNNING"@,
                    );
                assert(0 <= j < i + 1 && contains_seq(all[j], "State: RUNNING"@));
            }
            if running_seen(all, i + 1) {
                let j = choose|j: int|
                    0 <= j < i + 1 && j < all.len() && contains_seq(
                        #[trigger] all[j],
                        "State: RUNNING"@,
                    );
                if j < i {
                    assert(running_seen(all, i as int));
                }
            }
        }
        let ghost before = views(out@);
        if let Some(text) = volume_text_of(&line) {
            if in_running_sink {
                let s = string_of(&text);
                out.push(s);
                assert(views(out@) =~= before.push(text@));
            }
        }
        i += 1;
    }
    out
}

/// The text in which a line of `ps aux` gives the processor share of
/// PulseAudio: the third column of a line that mentions `pulseaudio`.
pub open spec fn daemon_cpu_text(line: Seq<char>) -> Option<Seq<char>> {
    if contains_seq(line, "pulseaudio"@) && words(line).len() > 2 {
        Some(words(line)[2])
    } else {
        None
    }
}

/// The processor shares of the first `upto` of `lines`, in order.
pub open spec fn daemon_cpu_texts(lines: Seq<Seq<char>>, upto: int) -> Seq<Seq<char>>
    decreases upto,
{
    if upto <= 0 {
        Seq::empty()
    } else {
        let before = daemon_cpu_texts(lines, upto - 1);
        match daemon_cpu_text(lines[upto - 1]) {
            Some(text) => before.push(text),
            None => before,
        }
    }
}

/// The texts in which `ps aux` gives the processor share of PulseAudio,
/// in order. If one of them reads as a number above one, audio is taken
/// to be playing.
pub fn pulseaudio_cpu_shares(listing: &str) -> (r: Vec<String>)
    ensures
        views(r@) == daemon_cpu_texts(lines(listing@), lines(listing@).len() as int),
{
    let cs = chars_of(listing);
    let spans = split_lines(&cs);
    let daemon = chars_of("pulseaudio");
    let ghost all = lines(cs@);
    let mut out: Vec<String> = Vec::new();
    let mut i: usize = 0;
    assert(views(out@) =~= daemon_cpu_texts(all, 0));
    while i < spans.len()
        invariant
            i <= spans.len(),
            cs@ == listing@,
            all == lines(cs@),
            spans_cover(cs@, spans@, all),
            daemon@ == "pulseaudio"@,
            views(out@) == daemon_cpu_texts(all, i as int),
        decreases spans.len() - i,
    {
        let line = slice_of(&cs, spans[i]);
        assert(line@ == all[i as int]);
        let ghost before = views(out@);
        if find_chars(&line, &daemon).is_some() {
            let parts = split_words(&line);
            if parts.len() > 2 {
                let share = slice_of(&line, parts[2]);
                let s = string_of(&share);
                out.push(s);
                assert(views(out@) =~= before.push(share@));
            }
        }
        i += 1;
    }
    out
}

/// The level reported when PulseAudio is seen at work.
pub const BUSY_DAEMON_LEVEL: u32 = 200_000;

/// The level of the audio output, judged in this order: by the volume
/// of a running sink, where one reads as a number above zero; by the
/// playing streams, where `pactl` lists any; by PulseAudio being seen at
/// work. Where nothing tells, the level is zero.
pub open spec fn output_level(volume: Option<u32>, streams: Option<Seq<char>>, busy: bool) -> u32 {
    match volume {
        Some(v) => level_of_volume(v),
        None => match streams {
            Some(listing) => match stream_level(listing) {
                Some(level) => level,
                None => if busy {
                    BUSY_DAEMON_LEVEL
                } else {
                    0
                },
            },
            None => if busy {
                BUSY_DAEMON_LEVEL
            } else {
                0
            },
        },
    }
}

/// The level of the audio output. `volume` is the volume in percent of
/// the first running sink whose volume reads as a number above zero;
/// `streams` is what `pactl list sink-inputs` printed, where it could be
/// run; `busy` tells whether a share of PulseAudio in the processor reads
/// as a number above one.
pub fn get_audio_output_peak_level(volume: Option<u32>, streams: Option<&str>, busy: bool) -> (r:
    Result<u32, String>)
    ensures
        r == Ok::<u32, String>(
            output_level(
                volume,
                match streams {
                    Some(listing) => Some(listing@),
                    None => None,
                },
                busy,
            ),
        ),
{
    if let Some(v) = volume {
        return Ok(level_from_volume(v));
    }
    if let Some(listing) = streams {
        if let Some(level) = level_from_streams(listing) {
            return Ok(level);
        }
    }
    if busy {
        Ok(BUSY_DAEMON_LEVEL)
    } else {
        Ok(0)
    }
}

} // verus!
