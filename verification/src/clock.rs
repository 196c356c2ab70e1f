//! Times of day, and how long a call has lasted when it is reported.

use vstd::prelude::*;
use crate::number::{decimal_digits, decimal_string};

verus! {

/// The seconds of a day.
pub const SECONDS_PER_DAY: u32 = 86_400;

/// The nanoseconds of a second.
pub const NANOS_PER_SECOND: u32 = 1_000_000_000;

/// A time of day. Within a leap second the nanoseconds run on past one
/// second, up to two.
#[derive(Debug, Clone, Copy, PartialEq, Eq, Structural)]
pub struct ClockTime {
    seconds: u32,
    nanos: u32,
}

impl ClockTime {
    #[verifier::type_invariant]
    spec fn in_range(self) -> bool {
        self.seconds < SECONDS_PER_DAY && self.nanos < 2 * NANOS_PER_SECOND
    }

    /// The whole seconds past midnight.
    pub closed spec fn seconds(self) -> u32 {
        self.seconds
    }

    /// The nanoseconds past the whole second.
    pub closed spec fn nanos(self) -> u32 {
        self.nanos
    }

    /// The time `seconds` past midnight, and `nanos` into that second, if
    /// there is such a time.
    pub fn new(seconds: u32, nanos: u32) -> (r: Option<ClockTime>)
        ensures
            match r {
                Some(t) => t.seconds() == seconds && t.nanos() == nanos && seconds
                    < SECONDS_PER_DAY && nanos < 2 * NANOS_PER_SECOND,
                None => seconds >= SECONDS_PER_DAY || nanos >= 2 * NANOS_PER_SECOND,
            },
    {
        if seconds < SECONDS_PER_DAY && nanos < 2 * NANOS_PER_SECOND {
            Some(ClockTime { seconds, nanos })
        } else {
            None
        }
    }

    /// Midnight.
    pub fn midnight() -> (r: ClockTime)
        ensures
            r.seconds() == 0,
            r.nanos() == 0,
    {
        ClockTime { seconds: 0, nanos: 0 }
    }

    /// The whole seconds past midnight.
    pub fn seconds_from_midnight(self) -> (r: u32)
        ensures
            r == self.seconds(),
            r < SECONDS_PER_DAY,
    {
        proof {
            use_type_invariant(self);
        }
        self.seconds
    }

    /// The nanoseconds past the whole second.
    pub fn nanoseconds(self) -> (r: u32)
        ensures
            r == self.nanos(),
            r < 2 * NANOS_PER_SECOND,
    {
        proof {
            use_type_invariant(self);
        }
        self.nanos
    }
}

/// What `chrono::NaiveTime::parse_from_str` makes of a text under the
/// format `%H:%M:%S`: the seconds past midnight and the nanoseconds of the
/// time it reads, or nothing where it reads no time.
pub uninterp spec fn time_of_day(s: Seq<char>) -> Option<(u32, u32)>;

/// Calls `chrono::NaiveTime::parse_from_str` with the format `%H:%M:%S`
/// and hands back what `num_seconds_from_midnight` and `nanosecond` say of
/// the time that was read. The contract only names the result.
#[verifier::external_body]
pub(crate) fn parse_time_of_day(s: &str) -> (r: Option<(u32, u32)>)
    ensures
        r == time_of_day(s@),
{
    match chrono::NaiveTime::parse_from_str(s, "%H:%M:%S") {
        Ok(t) => Some(
            (chrono::Timelike::num_seconds_from_midnight(&t), chrono::Timelike::nanosecond(&t)),
        ),
        Err(_) => None,
    }
}

/// A time of day as a pair: the seconds past midnight, and the
/// nanoseconds past the whole second.
pub type TimePair = (u32, u32);

/// `a` is not before `b`.
pub open spec fn not_before(a: TimePair, b: TimePair) -> bool {
    a.0 > b.0 || (a.0 == b.0 && a.1 >= b.1)
}

/// The whole seconds from `earlier` to `later`, negative where `later`
/// is the earlier. A leap second that lies between the two is counted;
/// a part of a second is dropped.
pub open spec fn whole_seconds_between(later: TimePair, earlier: TimePair) -> int {
    let leap: int = if later.0 > earlier.0 && earlier.1 >= NANOS_PER_SECOND {
        1
    } else if later.0 < earlier.0 && later.1 >= NANOS_PER_SECOND {
        -1
    } else {
        0
    };
    let secs = later.0 - earlier.0 + leap + (later.1 - earlier.1) / (NANOS_PER_SECOND as int);
    let part = (later.1 - earlier.1) % (NANOS_PER_SECOND as int);
    if secs < 0 && part > 0 {
        secs + 1
    } else {
        secs
    }
}

/// The last full second of a day.
pub open spec fn end_of_day() -> TimePair {
    (86_399u32, 0u32)
}

/// How long a call has lasted that began at `start`, at the time `now`
/// of the same day or of the next. Where `now` is before `start`,
/// midnight has passed between them: the call has lasted from `start` to
/// the last second of the day, one second more, and the seconds of the
/// new day.
pub open spec fn seconds_since_start(start: TimePair, now: TimePair) -> int {
    if not_before(now, start) {
        whole_seconds_between(now, start)
    } else {
        whole_seconds_between(end_of_day(), start) + now.0 + 1
    }
}

/// The whole seconds in a number of nanoseconds, rounded down.
fn floor_seconds(nanos: i64) -> (r: i64)
    requires
        -2_000_000_000 < nanos < 2_000_000_000,
    ensures
        r == (nanos as int) / (NANOS_PER_SECOND as int),
{
    if nanos >= 1_000_000_000 {
        1
    } else if nanos >= 0 {
        0
    } else if nanos >= -1_000_000_000 {
        -1
    } else {
        -2
    }
}

/// The whole seconds from `earlier` to `later`.
fn whole_seconds(later: ClockTime, earlier: ClockTime) -> (r: i64)
    ensures
        r == whole_seconds_between(
            (later.seconds(), later.nanos()),
            (earlier.seconds(), earlier.nanos()),
        ),
        -172_801 < r < 172_801,
{
    let ls = later.seconds_from_midnight() as i64;
    let lf = later.nanoseconds() as i64;
    let es = earlier.seconds_from_midnight() as i64;
    let ef = earlier.nanoseconds() as i64;
    let billion: i64 = 1_000_000_000;
    let leap: i64 = if ls > es && ef >= billion {
        1
    } else if ls < es && lf >= billion {
        -1
    } else {
        0
    };
    let diff: i64 = lf - ef;
    let carry: i64 = floor_seconds(diff);
    let secs: i64 = ls - es + leap + carry;
    let part: i64 = diff - carry * billion;
    assert(part == (diff as int) % (billion as int));
    if secs < 0 && part > 0 {
        secs + 1
    } else {
        secs
    }
}

/// How long a call has lasted that began at `start`, at the time `now`.
pub fn elapsed_seconds(start: ClockTime, now: ClockTime) -> (r: u64)
    ensures
        r == seconds_since_start((start.seconds(), start.nanos()), (now.seconds(), now.nanos())),
{
    let s = start.seconds_from_midnight();
    let sf = start.nanoseconds();
    let n = now.seconds_from_midnight();
    let nf = now.nanoseconds();
    if n > s || (n == s && nf >= sf) {
        let secs = whole_seconds(now, start);
        assert(secs >= 0);
        secs as u64
    } else {
        let last = match ClockTime::new(86_399, 0) {
            Some(t) => t,
            None => now,
        };
        let total: i64 = whole_seconds(last, start) + n as i64 + 1;
        assert(total >= 0);
        total as u64
    }
}

/// A duration in words: hours, minutes and seconds; the hours are left
/// out of less than an hour, and the minutes too of less than a minute.
pub open spec fn duration_text(seconds: nat) -> Seq<char> {
    let hours = seconds / 3600;
    let minutes = (seconds % 3600) / 60;
    let rest = seconds % 60;
    if hours > 0 {
        decimal_digits(hours) + "h "@ + decimal_digits(minutes) + "m "@ + decimal_digits(rest)
            + "s"@
    } else if minutes > 0 {
        decimal_digits(minutes) + "m "@ + decimal_digits(rest) + "s"@
    } else {
        decimal_digits(rest) + "s"@
    }
}

/// A duration in words.
pub fn format_duration(seconds: u64) -> (r: String)
    ensures
        r@ == duration_text(seconds as nat),
{
    let hours = seconds / 3600;
    let minutes = (seconds % 3600) / 60;
    let rest = seconds % 60;
    let mut out = String::new();
    if hours > 0 {
        out.append(decimal_string(hours).as_str());
        out.append("h ");
    }
    if hours > 0 || minutes > 0 {
        out.append(decimal_string(minutes).as_str());
        out.append("m ");
    }
    out.append(decimal_string(rest).as_str());
    out.append("s");
    assert(out@ =~= duration_text(seconds as nat));
    out
}

/// What is shown for the duration of a call that began at the time
/// `start` that `started_at` reads as, as of `now`: the duration in
/// words. Where `started_at` reads as no time of day, what is shown is
/// `Started at ` and the text itself.
pub open spec fn shown_duration(
    started_at: Seq<char>,
    start: Option<TimePair>,
    now: TimePair,
) -> Seq<char> {
    match start {
        Some(time) => if time.0 < SECONDS_PER_DAY && time.1 < 2 * NANOS_PER_SECOND {
            duration_text(seconds_since_start(time, now) as nat)
        } else {
            "Started at "@ + started_at
        },
        None => "Started at "@ + started_at,
    }
}

/// What is shown for the duration of a call, given what its start reads as.
pub fn duration_from(started_at: &str, start: Option<(u32, u32)>, now: ClockTime) -> (r: String)
    ensures
        r@ == shown_duration(started_at@, start, (now.seconds(), now.nanos())),
{
    if let Some((seconds, nanos)) = start {
        if let Some(start_time) = ClockTime::new(seconds, nanos) {
            return format_duration(elapsed_seconds(start_time, now));
        }
    }
    let mut out = "Started at ".to_string();
    out.append(started_at);
    out
}

/// What is shown for the duration of a call that began at the
/// wall-clock time `started_at`, written as hours, minutes and seconds,
/// as of `now`.
pub fn calculate_duration(started_at: &str, now: ClockTime) -> (r: String)
    ensures
        r@ == shown_duration(started_at@, time_of_day(started_at@), (now.seconds(), now.nanos())),
{
    let start = parse_time_of_day(started_at);
    duration_from(started_at, start, now)
}

} // verus!
