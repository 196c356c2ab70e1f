//! The connection signal tracker: which processes hold UDP endpoints that
//! look like real-time media, read from the operating system's connection
//! table and forgotten when they have not been seen for ten seconds.
//!
//! Times are nanoseconds since the epoch.

use std::collections::HashMap;
use vstd::prelude::*;
use vstd::std_specs::hash::*;
use vstd::std_specs::iter::IteratorSpec;
use crate::fields::{
    after_last, after_last_char, before_char, before_first_char, lines, second_piece,
    segment_after, slice_of, spans_cover, split_lines, split_words, trim, trimmed, words,
};
use crate::number::{decimal_digits, decimal_string, parse_unsigned, parsed_unsigned};
use crate::platform::PlatformUtils;
use crate::text::{chars_of, contains_seq, find_chars, same_chars, views};

verus! {

/// A signal that has not been seen for this long is stale.
pub const STALE_AFTER: u64 = 10_000_000_000;

/// The port of STUN and TURN.
pub const PORT_STUN: u32 = 3478;

/// The STUN port of a large public service.
pub const PORT_STUN_ALT: u32 = 19302;

/// The port of STUN and TURN over TLS.
pub const PORT_STUN_TLS: u32 = 5349;

/// The least port of the range in which media streams are usually bound.
pub const MEDIA_PORT_MIN: u32 = 10000;

/// The greatest port there is.
pub const PORT_MAX: u32 = 65535;

/// Whether a local port hints at real-time media: a STUN or TURN port, or
/// any port of the high range.
pub open spec fn is_media_port(port: int) -> bool {
    ||| port == PORT_STUN
    ||| port == PORT_STUN_ALT
    ||| port == PORT_STUN_TLS
    ||| MEDIA_PORT_MIN <= port <= PORT_MAX
}

/// Whether an endpoint's address, written as host, colon, port, has a port
/// that hints at real-time media. The port is what follows the last colon.
pub open spec fn port_qualifies(addr: Seq<char>) -> bool {
    match parsed_unsigned(after_last_char(addr, ':'), PORT_MAX as int) {
        Some(port) => is_media_port(port),
        None => false,
    }
}

/// Whether a local port hints at real-time media.
pub fn is_media_port_number(port: u32) -> (r: bool)
    ensures
        r == is_media_port(port as int),
{
    if port == PORT_STUN || port == PORT_STUN_ALT || port == PORT_STUN_TLS {
        return true;
    }
    port >= MEDIA_PORT_MIN && port <= PORT_MAX
}

/// Whether the address of an endpoint has a port that hints at real-time media.
pub fn address_qualifies(addr: &Vec<char>) -> (r: bool)
    ensures
        r == port_qualifies(addr@),
{
    let tail = after_last(addr, ':');
    let digits = slice_of(addr, tail);
    match parse_unsigned(&digits, PORT_MAX) {
        Some(port) => is_media_port_number(port),
        None => false,
    }
}

/// The process id that a text denotes, if it denotes a number that fits.
pub open spec fn parsed_pid(s: Seq<char>) -> Option<u32> {
    match parsed_unsigned(s, u32::MAX as int) {
        Some(n) => Some(n as u32),
        None => None,
    }
}

/// The process that a line of `ss -uapn` attributes a qualifying endpoint
/// to. The columns of such a line are state, two queue lengths, local
/// address, peer address and users. The line must name its users, have
/// five columns at least with a qualifying local address in the fourth,
/// and give a process id other than zero after the first `pid=` of its
/// users column.
pub open spec fn ss_line_pid(line: Seq<char>) -> Option<u32> {
    let columns = words(line);
    if !contains_seq(line, "users:"@) || columns.len() < 5 || !port_qualifies(columns[3]) {
        None
    } else {
        match segment_after(line, "users:"@) {
            Some(users) => match segment_after(users, "pid="@) {
                Some(rest) => match parsed_pid(trimmed(before_char(rest, ','))) {
                    Some(pid) => if pid > 0 {
                        Some(pid)
                    } else {
                        None
                    },
                    None => None,
                },
                None => None,
            },
            None => None,
        }
    }
}

/// The process that a line of `netstat -ano -p UDP` attributes a qualifying
/// endpoint to. The line must have four columns at least, `UDP` in the
/// first, a qualifying local address in the second and a process id other
/// than zero in the last.
pub open spec fn netstat_line_pid(line: Seq<char>) -> Option<u32> {
    let columns = words(line);
    if columns.len() < 4 || columns[0] != "UDP"@ {
        None
    } else {
        match parsed_pid(columns.last()) {
            Some(pid) => if pid != 0 && port_qualifies(columns[1]) {
                Some(pid)
            } else {
                None
            },
            None => None,
        }
    }
}

/// The process that a line of `lsof -i UDP -n -P` attributes a qualifying
/// endpoint to. The line must have nine columns at least, a process id
/// other than zero in the second and a qualifying address in the last.
pub open spec fn lsof_line_pid(line: Seq<char>) -> Option<u32> {
    let columns = words(line);
    if columns.len() < 9 {
        None
    } else {
        match parsed_pid(columns[1]) {
            Some(pid) => if pid != 0 && port_qualifies(columns.last()) {
                Some(pid)
            } else {
                None
            },
            None => None,
        }
    }
}

/// Reads a process id.
pub fn parse_pid(cs: &Vec<char>) -> (r: Option<u32>)
    ensures
        r == parsed_pid(cs@),
{
    parse_unsigned(cs, u32::MAX)
}

/// The process that a line of `ss -uapn` attributes a qualifying endpoint to.
pub fn ss_line_process(line: &Vec<char>) -> (r: Option<u32>)
    ensures
        r == ss_line_pid(line@),
{
    let marker = chars_of("users:");
    if find_chars(line, &marker).is_none() {
        return None;
    }
    let columns = split_words(line);
    if columns.len() < 5 {
        return None;
    }
    let local_addr = slice_of(line, columns[3]);
    if !address_qualifies(&local_addr) {
        return None;
    }
    if let Some(users) = second_piece(line, &marker) {
        let pid_marker = chars_of("pid=");
        if let Some(rest) = second_piece(&users, &pid_marker) {
            let head = before_first_char(&rest, ',');
            let field = slice_of(&rest, head);
            let kept = trim(&field);
            let digits = slice_of(&field, kept);
            if let Some(pid) = parse_pid(&digits) {
                if pid > 0 {
                    return Some(pid);
                }
            }
        }
    }
    None
}

/// The process that a line of `netstat -ano -p UDP` attributes a
/// qualifying endpoint to.
pub fn netstat_line_process(line: &Vec<char>) -> (r: Option<u32>)
    ensures
        r == netstat_line_pid(line@),
{
    let columns = split_words(line);
    if columns.len() < 4 {
        return None;
    }
    let protocol = slice_of(line, columns[0]);
    let udp = chars_of("UDP");
    if !same_chars(&protocol, &udp) {
        return None;
    }
    let last = slice_of(line, columns[columns.len() - 1]);
    if let Some(pid) = parse_pid(&last) {
        if pid == 0 {
            return None;
        }
        let local_addr = slice_of(line, columns[1]);
        if address_qualifies(&local_addr) {
            return Some(pid);
        }
    }
    None
}

/// The process that a line of `lsof -i UDP -n -P` attributes a qualifying
/// endpoint to.
pub fn lsof_line_process(line: &Vec<char>) -> (r: Option<u32>)
    ensures
        r == lsof_line_pid(line@),
{
    let columns = split_words(line);
    if columns.len() < 9 {
        return None;
    }
    let second = slice_of(line, columns[1]);
    if let Some(pid) = parse_pid(&second) {
        if pid == 0 {
            return None;
        }
        let addr_info = slice_of(line, columns[columns.len() - 1]);
        if address_qualifies(&addr_info) {
            return Some(pid);
        }
    }
    None
}

/// The connection table of one of the tools that the monitor reads.
#[derive(Debug, Clone, Copy, PartialEq, Eq, Structural)]
pub enum TableFormat {
    /// `netstat -ano -p UDP`: four lines of heading.
    Netstat,
    /// `ss -uapn`: one line of heading.
    Ss,
    /// `lsof -i UDP -n -P`: one line of heading.
    Lsof,
}

/// How many lines of heading a table starts with.
pub open spec fn heading_lines(format: TableFormat) -> nat {
    match format {
        TableFormat::Netstat => 4,
        TableFormat::Ss => 1,
        TableFormat::Lsof => 1,
    }
}

/// The process that a line of a table attributes a qualifying endpoint to.
pub open spec fn line_pid(format: TableFormat, line: Seq<char>) -> Option<u32> {
    match format {
        TableFormat::Netstat => netstat_line_pid(line),
        TableFormat::Ss => ss_line_pid(line),
        TableFormat::Lsof => lsof_line_pid(line),
    }
}

/// The processes of the qualifying lines among `lines`, in order, one for
/// each such line.
pub open spec fn line_pids(format: TableFormat, lines: Seq<Seq<char>>) -> Seq<u32>
    decreases lines.len(),
{
    if lines.len() == 0 {
        Seq::empty()
    } else {
        let before = line_pids(format, lines.drop_last());
        match line_pid(format, lines.last()) {
            Some(pid) => before.push(pid),
            None => before,
        }
    }
}

/// The processes that a table attributes qualifying endpoints to: those of
/// its lines after the heading.
pub open spec fn table_pids(format: TableFormat, table: Seq<char>) -> Seq<u32> {
    let all = lines(table);
    if all.len() <= heading_lines(format) {
        Seq::empty()
    } else {
        line_pids(format, all.skip(heading_lines(format) as int))
    }
}

/// How often `pid` occurs in `pids`.
pub open spec fn occurrences(pids: Seq<u32>, pid: u32) -> nat
    decreases pids.len(),
{
    if pids.len() == 0 {
        0
    } else {
        occurrences(pids.drop_last(), pid) + if pids.last() == pid {
            1nat
        } else {
            0nat
        }
    }
}

/// The time from `then` to `now`; zero where `then` is the later.
pub open spec fn elapsed(now: u64, then: u64) -> int {
    if now >= then {
        now - then
    } else {
        0
    }
}

/// A signal last seen at `last_seen` is still fresh at `now`.
pub open spec fn is_fresh(last_seen: u64, now: u64) -> bool {
    elapsed(now, last_seen) < STALE_AFTER
}

/// Evidence that a process exchanges real-time media.
#[derive(Debug)]
pub struct WebRTCSignal {
    pub process_id: u32,
    pub process_name: String,
    pub remote_ips: Vec<String>,
    pub has_stun_traffic: bool,
    pub has_media_traffic: bool,
    /// How many qualifying endpoints were counted since the signal began.
    pub connection_count: usize,
    pub last_seen: u64,
    pub started_at: u64,
}

/// What a `WebRTCSignal` holds, with its texts as character sequences.
pub struct WebRtcSignalView {
    pub process_id: u32,
    pub process_name: Seq<char>,
    pub remote_ips: Seq<Seq<char>>,
    pub has_stun_traffic: bool,
    pub has_media_traffic: bool,
    pub connection_count: usize,
    pub last_seen: u64,
    pub started_at: u64,
}

impl View for WebRTCSignal {
    type V = WebRtcSignalView;

    open spec fn view(&self) -> WebRtcSignalView {
        WebRtcSignalView {
            process_id: self.process_id,
            process_name: self.process_name@,
            remote_ips: views(self.remote_ips@),
            has_stun_traffic: self.has_stun_traffic,
            has_media_traffic: self.has_media_traffic,
            connection_count: self.connection_count,
            last_seen: self.last_seen,
            started_at: self.started_at,
        }
    }
}

/// A copy of a list of strings.
pub fn clone_strings(v: &Vec<String>) -> (r: Vec<String>)
    ensures
        views(r@) == views(v@),
{
    let mut out: Vec<String> = Vec::new();
    let mut i: usize = 0;
    while i < v.len()
        invariant
            i <= v.len(),
            out.len() == i,
            forall|j: int| 0 <= j < i ==> out@[j]@ == v@[j]@,
        decreases v.len() - i,
    {
        out.push(v[i].clone());
        i += 1;
    }
    assert(views(out@) =~= views(v@));
    out
}

impl Clone for WebRTCSignal {
    fn clone(&self) -> (r: Self)
        ensures
            r@ == self@,
    {
        WebRTCSignal {
            process_id: self.process_id,
            process_name: self.process_name.clone(),
            remote_ips: clone_strings(&self.remote_ips),
            has_stun_traffic: self.has_stun_traffic,
            has_media_traffic: self.has_media_traffic,
            connection_count: self.connection_count,
            last_seen: self.last_seen,
            started_at: self.started_at,
        }
    }
}

/// The signal of `pid` after `count` more of its endpoints were seen at
/// `now`, where `before` is what was known of it. A signal that was known
/// keeps its name and its start; a new one starts at `now`, and nothing is
/// said of its name. The count stops at the greatest `usize`.
pub open spec fn seen_again(
    before: Option<WebRtcSignalView>,
    after: WebRtcSignalView,
    pid: u32,
    count: nat,
    now: u64,
) -> bool {
    match before {
        Some(known) => after == WebRtcSignalView {
            last_seen: now,
            connection_count: if known.connection_count + count <= usize::MAX {
                (known.connection_count + count) as usize
            } else {
                usize::MAX
            },
            ..known
        },
        None => {
            &&& after.process_id == pid
            &&& after.remote_ips == Seq::<Seq<char>>::empty()
            &&& after.has_stun_traffic
            &&& after.has_media_traffic
            &&& after.connection_count == if count <= usize::MAX {
                count as usize
            } else {
                usize::MAX
            }
            &&& after.last_seen == now
            &&& after.started_at == now
        },
    }
}

/// What was known of `pid` in `signals`.
pub open spec fn known(signals: Map<u32, WebRtcSignalView>, pid: u32) -> Option<
    WebRtcSignalView,
> {
    if signals.contains_key(pid) {
        Some(signals[pid])
    } else {
        None
    }
}

/// `after` is `before` with one qualifying endpoint recorded at `now` for
/// each element of `pids`: the processes in `pids` are tracked, each with
/// its count raised by the number of its occurrences, and all others are
/// as they were.
pub open spec fn ingested(
    before: Map<u32, WebRtcSignalView>,
    after: Map<u32, WebRtcSignalView>,
    pids: Seq<u32>,
    now: u64,
) -> bool {
    &&& forall|pid: u32|
        #![trigger after.contains_key(pid)]
        after.contains_key(pid) <==> before.contains_key(pid) || pids.contains(pid)
    &&& forall|pid: u32|
        #![trigger after[pid]]
        after.contains_key(pid) ==> if pids.contains(pid) {
            seen_again(known(before, pid), after[pid], pid, occurrences(pids, pid), now)
        } else {
            after[pid] == before[pid]
        }
}

/// `after` is `before` once the signals that are stale at `now` are gone.
pub open spec fn evicted(
    before: Map<u32, WebRtcSignalView>,
    after: Map<u32, WebRtcSignalView>,
    now: u64,
) -> bool {
    &&& forall|pid: u32|
        #![trigger after.contains_key(pid)]
        after.contains_key(pid) <==> before.contains_key(pid) && is_fresh(
            before[pid].last_seen,
            now,
        )
    &&& forall|pid: u32| #![trigger after[pid]] after.contains_key(pid) ==> after[pid] == before[pid]
}

/// `after` is `before` after one poll at `now` that found the endpoints
/// `pids`: the processes in `pids` are tracked and were last seen at `now`;
/// of the others, those still fresh at `now` are kept as they were and the
/// stale ones are gone.
pub open spec fn polled(
    before: Map<u32, WebRtcSignalView>,
    after: Map<u32, WebRtcSignalView>,
    pids: Seq<u32>,
    now: u64,
) -> bool {
    &&& forall|pid: u32|
        #![trigger after.contains_key(pid)]
        after.contains_key(pid) <==> pids.contains(pid) || (before.contains_key(pid) && is_fresh(
            before[pid].last_seen,
            now,
        ))
    &&& forall|pid: u32|
        #![trigger after[pid]]
        after.contains_key(pid) ==> if pids.contains(pid) {
            seen_again(known(before, pid), after[pid], pid, occurrences(pids, pid), now)
        } else {
            after[pid] == before[pid]
        }
}

/// `listing` holds each signal of `signals` once, in some order.
pub open spec fn lists(listing: Seq<WebRtcSignalView>, signals: Map<u32, WebRtcSignalView>) -> bool {
    &&& listing.len() == signals.dom().len()
    &&& forall|i: int|
        0 <= i < listing.len() ==> signals.contains_key((#[trigger] listing[i]).process_id)
            && signals[listing[i].process_id] == listing[i]
    &&& forall|i: int, j: int|
        0 <= i < j < listing.len() ==> (#[trigger] listing[i]).process_id != (
        #[trigger] listing[j]).process_id
}

/// The name under which a process is tracked: the name that was looked
/// up, or `Process_` and the process id where the lookup failed.
pub open spec fn process_label_of(pid: u32, looked_up: Result<Seq<char>, Seq<char>>) -> Seq<char> {
    match looked_up {
        Ok(name) => name,
        Err(_) => "Process_"@ + decimal_digits(pid as nat),
    }
}

/// The name under which a process is tracked, from what a lookup gave.
pub fn process_label(pid: u32, looked_up: Result<String, String>) -> (r: String)
    ensures
        r@ == process_label_of(
            pid,
            match looked_up {
                Ok(name) => Ok(name@),
                Err(e) => Err(e@),
            },
        ),
{
    match looked_up {
        Ok(name) => name,
        Err(_) => {
            let mut label = "Process_".to_string();
            let digits = decimal_string(pid as u64);
            label.append(digits.as_str());
            label
        },
    }
}

/// Looks the name of a process up; the result is whatever the platform
/// answers, or the fallback label.
fn get_process_name_from_pid<P: PlatformUtils>(pid: u32) -> String {
    process_label(pid, P::get_process_name(pid))
}

/// The STUN and TURN servers of the common meeting apps.
pub open spec fn stun_servers() -> Seq<Seq<char>> {
    seq![
        "stun.l.google.com"@,
        "stun1.l.google.com"@,
        "stun2.l.google.com"@,
        "stun3.l.google.com"@,
        "stun4.l.google.com"@,
        "stun.teams.microsoft.com"@,
        "stun.zoom.us"@,
        "stun.slack.com"@,
        "turn.whatsapp.com"@,
    ]
}

/// `pid` is among the first `n` elements of `s`.
pub open spec fn occurs_before(s: Seq<u32>, n: int, pid: u32) -> bool {
    exists|j: int| 0 <= j < n && j < s.len() && s[j] == pid
}

/// The views of a list of signals, in order.
pub open spec fn signal_views(v: Seq<WebRTCSignal>) -> Seq<WebRtcSignalView> {
    Seq::new(v.len(), |i: int| v[i]@)
}

/// The processes that a poll finds endpoints of: those of the table, or
/// none where no table could be read.
pub open spec fn scanned_pids(format: TableFormat, table: Option<&str>) -> Seq<u32> {
    match table {
        Some(text) => table_pids(format, text@),
        None => Seq::empty(),
    }
}

/// Recording endpoints at `now` and then forgetting what is stale at `now`
/// is one poll.
pub proof fn lemma_polled(
    a: Map<u32, WebRtcSignalView>,
    b: Map<u32, WebRtcSignalView>,
    c: Map<u32, WebRtcSignalView>,
    pids: Seq<u32>,
    now: u64,
)
    requires
        ingested(a, b, pids, now),
        evicted(b, c, now),
    ensures
        polled(a, c, pids, now),
{
    assert forall|pid: u32| #![trigger c.contains_key(pid)] c.contains_key(pid) <==> pids.contains(
        pid,
    ) || (a.contains_key(pid) && is_fresh(a[pid].last_seen, now)) by {
        assert(b.contains_key(pid) <==> a.contains_key(pid) || pids.contains(pid));
        if pids.contains(pid) {
            assert(b[pid].last_seen == now);
        }
    }
    assert forall|pid: u32| #![trigger c[pid]] c.contains_key(pid) implies if pids.contains(pid) {
        seen_again(known(a, pid), c[pid], pid, occurrences(pids, pid), now)
    } else {
        c[pid] == a[pid]
    } by {
        assert(b.contains_key(pid));
        assert(c[pid] == b[pid]);
    }
}

/// `copies` holds, one by one, what `table` holds under the first of `keys`.
pub open spec fn copies_of(
    copies: Seq<WebRTCSignal>,
    keys: Seq<u32>,
    table: Map<u32, WebRTCSignal>,
) -> bool {
    &&& copies.len() <= keys.len()
    &&& forall|j: int|
        0 <= j < copies.len() ==> table.contains_key(keys[j]) && (#[trigger] copies[j])@
            == table[keys[j]]@
}

/// Recording no endpoint changes nothing.
pub proof fn lemma_ingested_nothing(a: Map<u32, WebRtcSignalView>, now: u64)
    ensures
        ingested(a, a, Seq::<u32>::empty(), now),
{
}

/// One more endpoint of `pid` recorded after those of `pids`.
pub proof fn lemma_ingested_one_more(
    a: Map<u32, WebRtcSignalView>,
    b: Map<u32, WebRtcSignalView>,
    c: Map<u32, WebRtcSignalView>,
    pids: Seq<u32>,
    pid: u32,
    now: u64,
)
    requires
        ingested(a, b, pids, now),
        ingested(b, c, seq![pid], now),
    ensures
        ingested(a, c, pids.push(pid), now),
{
    let more = pids.push(pid);
    assert(more.drop_last() =~= pids);
    assert(seq![pid].drop_last() =~= Seq::<u32>::empty());
    assert(occurrences(seq![pid], pid) == 1) by {
        reveal_with_fuel(occurrences, 2);
    }
    assert(seq![pid].contains(pid)) by {
        assert(seq![pid][0] == pid);
    }
    assert(more.contains(pid)) by {
        assert(more[more.len() - 1] == pid);
    }
    assert forall|q: u32| more.contains(q) <==> pids.contains(q) || q == pid by {
        if pids.contains(q) {
            let i = choose|i: int| 0 <= i < pids.len() && pids[i] == q;
            assert(more[i] == q);
        }
    }
    assert forall|q: u32| q != pid implies !seq![pid].contains(q) by {}
    assert forall|q: u32| #![trigger c.contains_key(q)] c.contains_key(q) <==> a.contains_key(q)
        || more.contains(q) by {
        assert(b.contains_key(q) <==> a.contains_key(q) || pids.contains(q));
    }
    assert forall|q: u32| #![trigger c[q]] c.contains_key(q) implies if more.contains(q) {
        seen_again(known(a, q), c[q], q, occurrences(more, q), now)
    } else {
        c[q] == a[q]
    } by {
        assert(b.contains_key(q) <==> a.contains_key(q) || pids.contains(q));
        if q == pid {
            if pids.contains(pid) {
                lemma_occurrences_positive(pids, pid);
            } else {
                lemma_occurrences_zero(pids, pid);
            }
        } else {
            assert(c[q] == b[q]);
        }
    }
}

/// What occurs in a sequence occurs in it once at least.
pub proof fn lemma_occurrences_positive(pids: Seq<u32>, pid: u32)
    requires
        pids.contains(pid),
    ensures
        occurrences(pids, pid) >= 1,
    decreases pids.len(),
{
    if pids.last() != pid {
        let i = choose|i: int| 0 <= i < pids.len() && pids[i] == pid;
        assert(pids.drop_last()[i] == pid);
        lemma_occurrences_positive(pids.drop_last(), pid);
    }
}

/// What does not occur in a sequence occurs in it zero times.
pub proof fn lemma_occurrences_zero(pids: Seq<u32>, pid: u32)
    requires
        !pids.contains(pid),
    ensures
        occurrences(pids, pid) == 0,
    decreases pids.len(),
{
    if pids.len() > 0 {
        assert(pids[pids.len() - 1] != pid);
        assert forall|i: int| 0 <= i < pids.drop_last().len() implies pids.drop_last()[i]
            != pid by {
            assert(pids[i] != pid);
        }
        lemma_occurrences_zero(pids.drop_last(), pid);
    }
}

/// Tracks, process by process, the network signals that hint at a call.
pub struct NetworkMonitor {
    active_connections: HashMap<u32, WebRTCSignal>,
    known_stun_servers: Vec<String>,
}

impl View for NetworkMonitor {
    type V = Map<u32, WebRtcSignalView>;

    /// The signals that are tracked, by process id.
    closed spec fn view(&self) -> Map<u32, WebRtcSignalView> {
        self.active_connections@.map_values(|s: WebRTCSignal| s@)
    }
}

impl NetworkMonitor {
    #[verifier::type_invariant]
    spec fn keyed(&self) -> bool {
        &&& forall|pid: u32|
            #![trigger self.active_connections@[pid]]
            self.active_connections@.contains_key(pid) ==> self.active_connections@[pid].process_id
                == pid
        &&& views(self.known_stun_servers@) == stun_servers()
    }

    /// The servers that this monitor knows as STUN or TURN servers.
    pub closed spec fn known_stun_servers(&self) -> Seq<Seq<char>> {
        views(self.known_stun_servers@)
    }

    /// A monitor that tracks nothing yet.
    pub fn new() -> (r: Self)
        ensures
            r@ == Map::<u32, WebRtcSignalView>::empty(),
            r.known_stun_servers() == stun_servers(),
    {
        let mut known_stun_servers: Vec<String> = Vec::new();
        known_stun_servers.push("stun.l.google.com".to_string());
        known_stun_servers.push("stun1.l.google.com".to_string());
        known_stun_servers.push("stun2.l.google.com".to_string());
        known_stun_servers.push("stun3.l.google.com".to_string());
        known_stun_servers.push("stun4.l.google.com".to_string());
        known_stun_servers.push("stun.teams.microsoft.com".to_string());
        known_stun_servers.push("stun.zoom.us".to_string());
        known_stun_servers.push("stun.slack.com".to_string());
        known_stun_servers.push("turn.whatsapp.com".to_string());
        assert(views(known_stun_servers@) =~= stun_servers());
        let active_connections: HashMap<u32, WebRTCSignal> = HashMap::new();
        let r = NetworkMonitor { active_connections, known_stun_servers };
        assert(r@ =~= Map::<u32, WebRtcSignalView>::empty());
        r
    }

    /// Records one qualifying endpoint of `pid` seen at `now`: a process
    /// that is tracked has its count raised and its time refreshed, another
    /// is tracked from now on under the name that the platform gives it.
    pub fn update_or_create_signal<P: PlatformUtils>(&mut self, pid: u32, now: u64)
        ensures
            ingested(old(self)@, final(self)@, seq![pid], now),
    {
        broadcast use group_hash_axioms;

        proof {
            use_type_invariant(&*self);
        }
        let ghost before = self.active_connections@;
        // The table is worked on outside the monitor and put back whole.
        let mut table: HashMap<u32, WebRTCSignal> = HashMap::new();
        std::mem::swap(&mut self.active_connections, &mut table);
        match table.remove(&pid) {
            Some(mut signal) => {
                signal.last_seen = now;
                if signal.connection_count < usize::MAX {
                    signal.connection_count += 1;
                }
                table.insert(pid, signal);
            },
            None => {
                let process_name = get_process_name_from_pid::<P>(pid);
                let signal = WebRTCSignal {
                    process_id: pid,
                    process_name,
                    remote_ips: Vec::new(),
                    has_stun_traffic: true,
                    has_media_traffic: true,
                    connection_count: 1,
                    last_seen: now,
                    started_at: now,
                };
                assert(signal@.remote_ips =~= Seq::<Seq<char>>::empty());
                table.insert(pid, signal);
            },
        }
        std::mem::swap(&mut self.active_connections, &mut table);
        proof {
            let after = self.active_connections@;
            assert(seq![pid].drop_last() =~= Seq::<u32>::empty());
            assert(occurrences(seq![pid], pid) == 1) by {
                reveal_with_fuel(occurrences, 2);
            }
            assert(seq![pid][0] == pid);
            assert forall|q: u32| after.contains_key(q) <==> before.contains_key(q) || q == pid by {}
            assert forall|q: u32| q != pid && after.contains_key(q) implies after[q] == before[q] by {}
        }
    }

    /// Records the endpoint of a line of a connection table, where the line
    /// attributes a qualifying one to a process.
    fn record_line<P: PlatformUtils>(&mut self, format: TableFormat, line: &Vec<char>, now: u64)
        ensures
            match line_pid(format, line@) {
                Some(pid) => ingested(old(self)@, final(self)@, seq![pid], now),
                None => final(self)@ == old(self)@,
            },
    {
        let found = match format {
            TableFormat::Netstat => netstat_line_process(line),
            TableFormat::Ss => ss_line_process(line),
            TableFormat::Lsof => lsof_line_process(line),
        };
        if let Some(pid) = found {
            self.update_or_create_signal::<P>(pid, now);
        }
    }

    /// Reads one line of `netstat -ano -p UDP`.
    pub fn parse_netstat_line<P: PlatformUtils>(&mut self, line: &str, now: u64)
        ensures
            match netstat_line_pid(line@) {
                Some(pid) => ingested(old(self)@, final(self)@, seq![pid], now),
                None => final(self)@ == old(self)@,
            },
    {
        let cs = chars_of(line);
        self.record_line::<P>(TableFormat::Netstat, &cs, now);
    }

    /// Reads one line of `ss -uapn`.
    pub fn parse_ss_line<P: PlatformUtils>(&mut self, line: &str, now: u64)
        ensures
            match ss_line_pid(line@) {
                Some(pid) => ingested(old(self)@, final(self)@, seq![pid], now),
                None => final(self)@ == old(self)@,
            },
    {
        let cs = chars_of(line);
        self.record_line::<P>(TableFormat::Ss, &cs, now);
    }

    /// Reads one line of `lsof -i UDP -n -P`.
    pub fn parse_lsof_line<P: PlatformUtils>(&mut self, line: &str, now: u64)
        ensures
            match lsof_line_pid(line@) {
                Some(pid) => ingested(old(self)@, final(self)@, seq![pid], now),
                None => final(self)@ == old(self)@,
            },
    {
        let cs = chars_of(line);
        self.record_line::<P>(TableFormat::Lsof, &cs, now);
    }

    /// Whether an endpoint's address has a port that hints at real-time media.
    pub fn is_webrtc_port(&self, addr: &str) -> (r: bool)
        ensures
            r == port_qualifies(addr@),
    {
        let cs = chars_of(addr);
        address_qualifies(&cs)
    }

    /// Reads a connection table: every line after the heading that
    /// attributes a qualifying endpoint to a process is recorded at `now`.
    pub fn scan_network_connections<P: PlatformUtils>(
        &mut self,
        format: TableFormat,
        table: &str,
        now: u64,
    )
        ensures
            ingested(old(self)@, final(self)@, table_pids(format, table@), now),
    {
        let cs = chars_of(table);
        let spans = split_lines(&cs);
        let heading: usize = match format {
            TableFormat::Netstat => 4,
            TableFormat::Ss => 1,
            TableFormat::Lsof => 1,
        };
        let ghost all = lines(table@);
        let ghost mut pids: Seq<u32> = Seq::empty();
        proof {
            lemma_ingested_nothing(self@, now);
        }
        if spans.len() <= heading {
            return ;
        }
        let ghost body = all.skip(heading as int);
        let mut i: usize = heading;
        assert(body.take(0) =~= Seq::<Seq<char>>::empty());
        while i < spans.len()
            invariant
                heading <= i <= spans.len(),
                cs@ == table@,
                all == lines(table@),
                spans_cover(cs@, spans@, all),
                body == all.skip(heading as int),
                pids == line_pids(format, body.take(i - heading)),
                ingested(old(self)@, self@, pids, now),
            decreases spans.len() - i,
        {
            let line = slice_of(&cs, spans[i]);
            let ghost mid = self@;
            self.record_line::<P>(format, &line, now);
            proof {
                let upto = body.take(i - heading + 1);
                assert(upto.drop_last() =~= body.take(i - heading));
                assert(upto.last() == line@);
                match line_pid(format, line@) {
                    Some(pid) => {
                        lemma_ingested_one_more(old(self)@, mid, self@, pids, pid, now);
                        pids = pids.push(pid);
                    },
                    None => {},
                }
            }
            i += 1;
        }
        assert(body.take(i - heading) =~= body);
    }

    /// The processes whose signal is stale at `now`.
    fn stale_processes(&self, now: u64) -> (r: Vec<u32>)
        ensures
            forall|pid: u32|
                r@.contains(pid) <==> self@.contains_key(pid) && !is_fresh(
                    self@[pid].last_seen,
                    now,
                ),
    {
        broadcast use group_hash_axioms;

        let mut stale: Vec<u32> = Vec::new();
        let ghost table = self.active_connections@;
        let ghost all_keys = spec_keys_iter(&self.active_connections).remaining();
        for key in it: self.active_connections.keys()
            invariant
                table == self.active_connections@,
                it.seq() == all_keys,
                it.seq().unref().to_set() == table.dom(),
                forall|pid: u32|
                    stale@.contains(pid) <==> occurs_before(it.seq().unref(), it.index() as int, pid)
                        && !is_fresh(table[pid].last_seen, now),
        {
            let pid: u32 = *key;
            let ghost seen = it.seq().unref();
            let ghost at = it.index() as int;
            let ghost before = stale@;
            assert(seen[at] == pid);
            assert(seen.contains(pid));
            assert(table.dom().contains(pid));
            match self.active_connections.get(&pid) {
                Some(signal) => {
                    assert(table[pid] == *signal);
                    let age: u64 = if now >= signal.last_seen {
                        now - signal.last_seen
                    } else {
                        0
                    };
                    assert(age == elapsed(now, table[pid].last_seen));
                    if age >= STALE_AFTER {
                        stale.push(pid);
                        assert forall|q: u32| stale@.contains(q) <==> before.contains(q) || q
                            == pid by {
                            if before.contains(q) {
                                let j = choose|j: int| 0 <= j < before.len() && before[j] == q;
                                assert(stale@[j] == q);
                            }
                            if q == pid {
                                assert(stale@[stale@.len() - 1] == q);
                            }
                        }
                    } else {
                        assert(stale@ == before);
                    }
                },
                None => {
                    assert(false);
                },
            }
            assert(stale@.contains(pid) <==> !is_fresh(table[pid].last_seen, now)) by {
                if before.contains(pid) {
                    assert(occurs_before(seen, at, pid));
                }
            }
            assert forall|q: u32| occurs_before(seen, at + 1, q) <==> occurs_before(seen, at, q)
                || q == pid by {
                if occurs_before(seen, at, q) {
                    let j = choose|j: int| 0 <= j < at && seen[j] == q;
                    assert(0 <= j < at + 1 && seen[j] == q);
                }
                if q == pid {
                    assert(0 <= at < at + 1 && seen[at] == q);
                }
            }
            assert(forall|q: u32| q != pid ==> (stale@.contains(q) <==> before.contains(q)));
            assert forall|q: u32| stale@.contains(q) <==> occurs_before(seen, at + 1, q)
                && !is_fresh(table[q].last_seen, now) by {
                if q != pid {
                    assert(stale@.contains(q) <==> before.contains(q));
                    assert(occurs_before(seen, at + 1, q) <==> occurs_before(seen, at, q));
                }
            }
        }
        proof {
            let seen = all_keys.unref();
            assert forall|pid: u32| occurs_before(seen, seen.len() as int, pid)
                <==> table.contains_key(pid) by {
                if table.contains_key(pid) {
                    assert(seen.to_set().contains(pid));
                    assert(seen.contains(pid));
                }
                if occurs_before(seen, seen.len() as int, pid) {
                    assert(seen.contains(pid));
                    assert(seen.to_set().contains(pid));
                }
            }
        }
        stale
    }

    /// Forgets the signals that are stale at `now`.
    fn evict_stale(&mut self, now: u64)
        ensures
            evicted(old(self)@, final(self)@, now),
    {
        broadcast use group_hash_axioms;

        proof {
            use_type_invariant(&*self);
        }
        let stale = self.stale_processes(now);
        let ghost before = self.active_connections@;
        let mut table: HashMap<u32, WebRTCSignal> = HashMap::new();
        std::mem::swap(&mut self.active_connections, &mut table);
        let mut i: usize = 0;
        while i < stale.len()
            invariant
                i <= stale.len(),
                forall|q: u32|
                    #![trigger table@.contains_key(q)]
                    table@.contains_key(q) <==> before.contains_key(q) && !occurs_before(
                        stale@,
                        i as int,
                        q,
                    ),
                forall|q: u32| #![trigger table@[q]] table@.contains_key(q) ==> table@[q] == before[q],
            decreases stale.len() - i,
        {
            let pid: u32 = stale[i];
            let ghost mid = table@;
            table.remove(&pid);
            assert(table@ == mid.remove(pid));
            assert forall|q: u32| occurs_before(stale@, i + 1, q) <==> occurs_before(
                stale@,
                i as int,
                q,
            ) || q == pid by {
                if occurs_before(stale@, i as int, q) {
                    let j = choose|j: int| 0 <= j < i && j < stale@.len() && stale@[j] == q;
                    assert(0 <= j < i + 1 && stale@[j] == q);
                }
                if q == pid {
                    assert(0 <= i < i + 1 && stale@[i as int] == q);
                }
            }
            i += 1;
        }
        std::mem::swap(&mut self.active_connections, &mut table);
        proof {
            let after = self.active_connections@;
            assert forall|q: u32| occurs_before(stale@, stale@.len() as int, q)
                <==> stale@.contains(q) by {}
            assert forall|q: u32|
                #![trigger self@.contains_key(q)]
                self@.contains_key(q) <==> old(self)@.contains_key(q) && is_fresh(
                    old(self)@[q].last_seen,
                    now,
                ) by {
                assert(after.contains_key(q) <==> before.contains_key(q) && !occurs_before(
                    stale@,
                    stale@.len() as int,
                    q,
                ));
                assert(self@.contains_key(q) <==> after.contains_key(q));
                assert(old(self)@.contains_key(q) <==> before.contains_key(q));
                assert(stale@.contains(q) <==> old(self)@.contains_key(q) && !is_fresh(
                    old(self)@[q].last_seen,
                    now,
                ));
            }
            assert forall|q: u32| #![trigger self@[q]] self@.contains_key(q) implies self@[q]
                == old(self)@[q] by {
                assert(after.contains_key(q));
                assert(after[q] == before[q]);
            }
        }
    }

    /// Every signal that is tracked, once, in no particular order.
    fn list_signals(&self) -> (r: Vec<WebRTCSignal>)
        ensures
            lists(signal_views(r@), self@),
    {
        broadcast use group_hash_axioms;

        proof {
            use_type_invariant(self);
        }
        let mut out: Vec<WebRTCSignal> = Vec::new();
        let ghost table = self.active_connections@;
        let ghost all_keys = spec_keys_iter(&self.active_connections).remaining();
        for key in it: self.active_connections.keys()
            invariant
                table == self.active_connections@,
                it.seq() == all_keys,
                all_keys.unref().to_set() == table.dom(),
                forall|pid: u32|
                    #![trigger table[pid]]
                    table.contains_key(pid) ==> table[pid].process_id == pid,
                out.len() == it.index(),
                copies_of(out@, all_keys.unref(), table),
        {
            let pid: u32 = *key;
            let ghost at = it.index() as int;
            assert(all_keys.unref()[at] == pid);
            assert(all_keys.unref().contains(pid));
            assert(table.dom().contains(pid));
            assert(*all_keys[at] == pid);
            let ghost listed = out@;
            match self.active_connections.get(&pid) {
                Some(signal) => {
                    assert(table[pid] == *signal);
                    let copy = signal.clone();
                    assert(copy@ == table[pid]@);
                    out.push(copy);
                    assert(out@[at] == copy);
                    assert(forall|j: int| 0 <= j < at ==> out@[j] == listed[j]);
                },
                None => {
                    assert(false);
                },
            }
            assert(copies_of(out@, all_keys.unref(), table)) by {
                assert forall|j: int| 0 <= j < out@.len() implies table.contains_key(
                    all_keys.unref()[j],
                ) && (#[trigger] out@[j])@ == table[all_keys.unref()[j]]@ by {
                    if j < at {
                        assert(out@[j] == listed[j]);
                    }
                }
            }
        }
        proof {
            axiom_spec_keys_iter(&self.active_connections);
            let listing = signal_views(out@);
            assert(listing.len() == self@.dom().len()) by {
                assert(self@.dom() =~= table.dom());
            }
            let keys = all_keys.unref();
            assert forall|i: int| 0 <= i < listing.len() implies self@.contains_key(
                (#[trigger] listing[i]).process_id,
            ) && self@[listing[i].process_id] == listing[i] by {
                assert(out@[i]@ == table[keys[i]]@);
                assert(table[keys[i]].process_id == keys[i]);
            }
            assert forall|i: int, j: int| 0 <= i < j < listing.len() implies (
            #[trigger] listing[i]).process_id != (#[trigger] listing[j]).process_id by {
                assert(all_keys[i] != all_keys[j]);
                assert(out@[i]@ == table[keys[i]]@);
                assert(out@[j]@ == table[keys[j]]@);
                assert(table[keys[i]].process_id == keys[i]);
                assert(table[keys[j]].process_id == keys[j]);
            }
        }
        out
    }

    /// Polls once at `now`. Where the connection table could be read, its
    /// qualifying endpoints are recorded; then the signals that have become
    /// stale are forgotten, and the ones that remain are handed out. A
    /// table that could not be read counts as one without endpoints.
    pub fn get_webrtc_signals<P: PlatformUtils>(
        &mut self,
        format: TableFormat,
        table: Option<&str>,
        now: u64,
    ) -> (r: Vec<WebRTCSignal>)
        ensures
            polled(old(self)@, final(self)@, scanned_pids(format, table), now),
            lists(signal_views(r@), final(self)@),
    {
        let ghost before = self@;
        match table {
            Some(text) => {
                self.scan_network_connections::<P>(format, text, now);
            },
            None => {
                proof {
                    lemma_ingested_nothing(self@, now);
                }
            },
        }
        let ghost mid = self@;
        self.evict_stale(now);
        proof {
            lemma_polled(before, mid, self@, scanned_pids(format, table), now);
        }
        self.list_signals()
    }

    /// Whether a process has a network signal.
    pub fn has_webrtc_activity(&self, process_id: u32) -> (r: bool)
        ensures
            r == self@.contains_key(process_id),
    {
        broadcast use group_hash_axioms;

        self.active_connections.contains_key(&process_id)
    }

    /// The network signal of a process, if it has one.
    pub fn get_signal_for_process(&self, process_id: u32) -> (r: Option<&WebRTCSignal>)
        ensures
            match r {
                Some(signal) => self@.contains_key(process_id) && self@[process_id] == signal@
                    && signal.process_id == process_id,
                None => !self@.contains_key(process_id),
            },
    {
        broadcast use group_hash_axioms;

        proof {
            use_type_invariant(self);
        }
        self.active_connections.get(&process_id)
    }
}

/// Every signal in `signals` is filed under the id of its own process.
pub open spec fn keyed_by_process(signals: Map<u32, WebRtcSignalView>) -> bool {
    forall|pid: u32| #![trigger signals[pid]] signals.contains_key(pid) ==> signals[pid].process_id == pid
}

/// A signal whose process shows no endpoint in a poll survives the poll
/// exactly when it was last seen less than ten seconds before, and then
/// it is unchanged.
pub proof fn law_signal_expires_when_stale(
    before: Map<u32, WebRtcSignalView>,
    after: Map<u32, WebRtcSignalView>,
    pids: Seq<u32>,
    now: u64,
    pid: u32,
)
    requires
        polled(before, after, pids, now),
        before.contains_key(pid),
        !pids.contains(pid),
    ensures
        after.contains_key(pid) <==> elapsed(now, before[pid].last_seen) < STALE_AFTER,
        after.contains_key(pid) ==> after[pid] == before[pid],
{
    assert(after.contains_key(pid) <==> pids.contains(pid) || (before.contains_key(pid) && is_fresh(
        before[pid].last_seen,
        now,
    )));
}

/// After a poll no signal is stale, every process of the poll is
/// tracked, and each signal is still filed under its own process.
pub proof fn law_poll_keeps_table_fresh(
    before: Map<u32, WebRtcSignalView>,
    after: Map<u32, WebRtcSignalView>,
    pids: Seq<u32>,
    now: u64,
)
    requires
        polled(before, after, pids, now),
        keyed_by_process(before),
    ensures
        forall|pid: u32|
            #![trigger after[pid]]
            after.contains_key(pid) ==> is_fresh(after[pid].last_seen, now),
        forall|pid: u32| pids.contains(pid) ==> #[trigger] after.contains_key(pid),
        keyed_by_process(after),
{
    assert forall|pid: u32| #![trigger after[pid]] after.contains_key(pid) implies is_fresh(
        after[pid].last_seen,
        now,
    ) && after[pid].process_id == pid by {
        assert(after.contains_key(pid) <==> pids.contains(pid) || (before.contains_key(pid)
            && is_fresh(before[pid].last_seen, now)));
        if pids.contains(pid) {
            assert(after[pid].last_seen == now);
        } else {
            assert(after[pid] == before[pid]);
        }
    }
}

} // verus!
