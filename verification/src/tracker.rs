//! Per-source activity records and the scan verdict.
//!
//! The tracker remembers, for every source address with a live record, the
//! set of destination ports seen since the record began. Time is a plain
//! counter of ticks supplied by the caller; `now` and `window` share one unit.

use crate::address::Ipv4Address;
use std::collections::{HashMap, HashSet};
use vstd::prelude::*;
use vstd::set_lib::*;
use vstd::std_specs::hash::*;
use vstd::std_specs::iter::IteratorSpec;

verus! {

broadcast use vstd::std_specs::hash::group_hash_axioms;

/// What the tracker knows of one source: the distinct destination ports seen
/// since the record began, and when it began.
pub struct ActivityModel {
    pub ports: Set<u16>,
    pub window_start: u64,
}

/// The tracker as a mathematical map from source address to record.
pub type TrackerModel = Map<Ipv4Address, ActivityModel>;

/// What the tracker says of one observed packet.
#[derive(Clone, Copy, Debug, PartialEq, Eq, Structural)]
pub enum Verdict {
    /// The source stays under the threshold.
    NoAlert,
    /// The source has just reached the threshold; its record is gone.
    ScanDetected { source_ip: Ipv4Address, port_count: usize },
}

/// How long a record that began at `window_start` has lived when the clock
/// reads `now`. A clock that reads earlier than the start gives age zero.
pub open spec fn age(window_start: u64, now: u64) -> int {
    if now >= window_start {
        now - window_start
    } else {
        0
    }
}

/// A record is expired once its age exceeds the window.
pub open spec fn is_expired(window_start: u64, now: u64, window: u64) -> bool {
    age(window_start, now) > window
}

/// Every record holds at least one port.
pub open spec fn well_formed(m: TrackerModel) -> bool {
    forall|ip: Ipv4Address| m.contains_key(ip) ==> (#[trigger] m[ip]).ports.len() > 0
}

/// The largest number of distinct ports there is.
pub const PORT_SPACE: usize = 65536;

/// A set of ports is finite and holds at most `PORT_SPACE` of them.
pub proof fn lemma_port_sets_are_small(ports: Set<u16>)
    ensures
        ports.finite(),
        ports.len() <= PORT_SPACE,
{
    let numbers = set_int_range(0, 65536);
    let all_ports = Set::<u16>::new(|p: u16| true);
    let to_port = |i: int| i as u16;
    lemma_int_range(0, 65536);
    assert forall|p: u16| numbers.map(to_port).contains(p) by {
        assert(numbers.contains(p as int) && to_port(p as int) == p);
    }
    assert(numbers.map(to_port) =~= all_ports);
    lemma_map_size_bound(numbers, all_ports, to_port);
    lemma_len_subset(ports, all_ports);
}

/// The records that are left once the expiry sweep has run at `now`.
pub open spec fn swept(m: TrackerModel, now: u64, window: u64) -> TrackerModel {
    Map::new(
        |ip: Ipv4Address| m.contains_key(ip) && !is_expired(m[ip].window_start, now, window),
        |ip: Ipv4Address| m[ip],
    )
}

/// The record of `ip` once `port` has been counted against the live records:
/// the existing record with the port added, or a fresh one that begins `now`.
pub open spec fn counted(live: TrackerModel, ip: Ipv4Address, port: u16, now: u64) -> ActivityModel {
    if live.contains_key(ip) {
        ActivityModel { ports: live[ip].ports.insert(port), window_start: live[ip].window_start }
    } else {
        ActivityModel { ports: Set::<u16>::empty().insert(port), window_start: now }
    }
}

/// The verdict on a packet from `ip` to `port` seen at `now`.
pub open spec fn verdict_after(
    m: TrackerModel,
    ip: Ipv4Address,
    port: u16,
    now: u64,
    window: u64,
    threshold: usize,
) -> Verdict {
    let record = counted(swept(m, now, window), ip, port, now);
    if record.ports.len() >= threshold {
        Verdict::ScanDetected { source_ip: ip, port_count: record.ports.len() as usize }
    } else {
        Verdict::NoAlert
    }
}

/// The records after a packet from `ip` to `port` seen at `now`: expired
/// records are gone, and the record of `ip` either holds the port or, where
/// the threshold was reached, is gone as well.
pub open spec fn state_after(
    m: TrackerModel,
    ip: Ipv4Address,
    port: u16,
    now: u64,
    window: u64,
    threshold: usize,
) -> TrackerModel {
    let live = swept(m, now, window);
    let record = counted(live, ip, port, now);
    if record.ports.len() >= threshold {
        live.remove(ip)
    } else {
        live.insert(ip, record)
    }
}

/// The ticks that have passed at `now` since `start`: none where the clock
/// reads earlier than `start`.
pub fn elapsed(start: u64, now: u64) -> (ticks: u64)
    ensures
        ticks == age(start, now),
{
    if now >= start {
        now - start
    } else {
        0
    }
}

/// Whether a record that began at `window_start` is expired at `now`.
pub fn expired(window_start: u64, now: u64, window: u64) -> (r: bool)
    ensures
        r == is_expired(window_start, now, window),
{
    elapsed(window_start, now) > window
}

/// The live record of one source address.
pub struct SourceActivity {
    ports: HashSet<u16>,
    window_start: u64,
}

impl View for SourceActivity {
    type V = ActivityModel;

    closed spec fn view(&self) -> ActivityModel {
        ActivityModel { ports: self.ports@, window_start: self.window_start }
    }
}

impl SourceActivity {
    /// The number of distinct destination ports in the record.
    pub fn port_count(&self) -> (n: usize)
        ensures
            n == self@.ports.len(),
    {
        self.ports.len()
    }

    /// Whether `port` has been counted in the record.
    pub fn has_port(&self, port: u16) -> (r: bool)
        ensures
            r == self@.ports.contains(port),
    {
        self.ports.contains(&port)
    }

    /// When the record began.
    pub fn window_start(&self) -> (t: u64)
        ensures
            t == self@.window_start,
    {
        self.window_start
    }
}

/// The records of all sources that are currently counted.
pub struct ActivityTracker {
    records: HashMap<u32, SourceActivity>,
}

impl View for ActivityTracker {
    type V = TrackerModel;

    closed spec fn view(&self) -> TrackerModel {
        Map::new(
            |ip: Ipv4Address| self.records@.contains_key(ip.bits),
            |ip: Ipv4Address| self.records@[ip.bits]@,
        )
    }
}

impl ActivityTracker {
    /// A tracker without records.
    pub fn new() -> (t: ActivityTracker)
        ensures
            t@ == Map::<Ipv4Address, ActivityModel>::empty(),
    {
        ActivityTracker { records: HashMap::new() }
    }

    /// The keys of the records that are expired at `now`.
    fn expired_keys(&self, now: u64, window: u64) -> (out: Vec<u32>)
        ensures
            forall|k: u32|
                out@.contains(k) <==> (self.records@.contains_key(k) && is_expired(
                    self.records@[k].window_start,
                    now,
                    window,
                )),
    {
        let mut out: Vec<u32> = Vec::new();
        let ghost keys: Seq<u32> = self.records.keys().remaining().unref();
        for k in it: self.records.keys()
            invariant
                it.seq().unref() == keys,
                keys.to_set() == self.records@.dom(),
                forall|j: int|
                    0 <= j < it.index() && is_expired(
                        self.records@[#[trigger] keys[j]].window_start,
                        now,
                        window,
                    ) ==> out@.contains(keys[j]),
                forall|i: int|
                    0 <= i < out@.len() ==> self.records@.contains_key(#[trigger] out@[i])
                        && is_expired(self.records@[out@[i]].window_start, now, window),
        {
            let ghost before = out@;
            match self.records.get(k) {
                Some(r) => {
                    if expired(r.window_start, now, window) {
                        out.push(*k);
                        assert(out@[out@.len() - 1] == *k);
                    }
                },
                None => {},
            }
            assert forall|x: u32| before.contains(x) implies out@.contains(x) by {
                let i = choose|i: int| 0 <= i < before.len() && before[i] == x;
                assert(out@[i] == x);
            }
        }
        assert(forall|j: int|
            0 <= j < keys.len() && is_expired(
                self.records@[#[trigger] keys[j]].window_start,
                now,
                window,
            ) ==> out@.contains(keys[j]));
        assert forall|k: u32|
            self.records@.contains_key(k) && is_expired(
                self.records@[k].window_start,
                now,
                window,
            ) implies out@.contains(k) by {
            let j = choose|j: int| 0 <= j < keys.len() && keys[j] == k;
            assert(out@.contains(keys[j]));
        }
        out
    }

    /// The expiry sweep: removes every record whose age at `now` exceeds
    /// `window`, and leaves the others as they are.
    pub fn sweep(&mut self, now: u64, window: u64)
        ensures
            final(self)@ == swept(old(self)@, now, window),
    {
        let doomed: Vec<u32> = self.expired_keys(now, window);
        let mut i: usize = 0;
        while i < doomed.len()
            invariant
                i <= doomed.len(),
                forall|k: u32|
                    self.records@.contains_key(k) <==> (old(self).records@.contains_key(k) && !(
                    exists|j: int| 0 <= j < i && doomed@[j] == k)),
                forall|k: u32|
                    self.records@.contains_key(k) ==> self.records@[k] == old(self).records@[k],
            decreases doomed.len() - i,
        {
            let ghost before = self.records@;
            let key: u32 = doomed[i];
            self.records.remove(&key);
            i = i + 1;
            assert forall|k: u32|
                self.records@.contains_key(k) <==> (old(self).records@.contains_key(k) && !(
                exists|j: int| 0 <= j < i && doomed@[j] == k)) by {
                if k != key && !before.contains_key(k) && old(self).records@.contains_key(k) {
                    let j = choose|j: int| 0 <= j < i - 1 && doomed@[j] == k;
                    assert(0 <= j < i && doomed@[j] == k);
                }
            }
        }
        proof {
            assert forall|ip: Ipv4Address|
                self@.contains_key(ip) <==> swept(old(self)@, now, window).contains_key(ip) by {
                let k = ip.bits;
                if old(self).records@.contains_key(k) {
                    if is_expired(old(self).records@[k].window_start, now, window) {
                        assert(doomed@.contains(k));
                    } else if exists|j: int| 0 <= j < i && doomed@[j] == k {
                        let j = choose|j: int| 0 <= j < i && doomed@[j] == k;
                        assert(doomed@.contains(doomed@[j]));
                    }
                }
            }
        }
    }

    /// Takes a packet from `ip` to `port` seen at `now` into account.
    ///
    /// First every record older than `window` is dropped. Then the port is
    /// added to the record of `ip`, which is created with `now` as its start
    /// when there is none. Where the record then holds at least `threshold`
    /// distinct ports, the verdict reports the source with that count and
    /// the record is dropped; otherwise the verdict is `NoAlert`.
    pub fn observe(
        &mut self,
        ip: Ipv4Address,
        port: u16,
        now: u64,
        window: u64,
        threshold: usize,
    ) -> (verdict: Verdict)
        ensures
            final(self)@ == state_after(old(self)@, ip, port, now, window, threshold),
            verdict == verdict_after(old(self)@, ip, port, now, window, threshold),
    {
        self.sweep(now, window);
        let mut record = match self.records.remove(&ip.bits) {
            Some(r) => r,
            None => SourceActivity { ports: HashSet::new(), window_start: now },
        };
        record.ports.insert(port);
        let count: usize = record.ports.len();
        if count >= threshold {
            Verdict::ScanDetected { source_ip: ip, port_count: count }
        } else {
            self.records.insert(ip.bits, record);
            Verdict::NoAlert
        }
    }

    /// The record of `ip`, if it has one.
    pub fn activity(&self, ip: Ipv4Address) -> (r: Option<&SourceActivity>)
        ensures
            r is Some == self@.contains_key(ip),
            r matches Some(a) ==> a@ == self@[ip],
    {
        self.records.get(&ip.bits)
    }

    /// Whether `ip` has a record.
    pub fn is_tracked(&self, ip: Ipv4Address) -> (r: bool)
        ensures
            r == self@.contains_key(ip),
    {
        self.records.contains_key(&ip.bits)
    }

    /// The number of distinct ports counted for `ip`: zero where it has no
    /// record.
    pub fn port_count(&self, ip: Ipv4Address) -> (n: usize)
        ensures
            n == (if self@.contains_key(ip) {
                self@[ip].ports.len()
            } else {
                0
            }),
    {
        match self.records.get(&ip.bits) {
            Some(a) => a.port_count(),
            None => 0,
        }
    }

    /// Whether `port` is counted in the record of `ip`.
    pub fn has_port(&self, ip: Ipv4Address, port: u16) -> (r: bool)
        ensures
            r == (self@.contains_key(ip) && self@[ip].ports.contains(port)),
    {
        match self.records.get(&ip.bits) {
            Some(a) => a.has_port(port),
            None => false,
        }
    }
}

/// The expiry sweep leaves well-formed records well formed.
pub proof fn lemma_sweep_keeps_well_formed(m: TrackerModel, now: u64, window: u64)
    requires
        well_formed(m),
    ensures
        well_formed(swept(m, now, window)),
{
}

/// Observing a packet leaves well-formed records well formed.
pub proof fn lemma_observe_keeps_well_formed(
    m: TrackerModel,
    ip: Ipv4Address,
    port: u16,
    now: u64,
    window: u64,
    threshold: usize,
)
    requires
        well_formed(m),
    ensures
        well_formed(state_after(m, ip, port, now, window, threshold)),
{
    let record = counted(swept(m, now, window), ip, port, now);
    lemma_port_sets_are_small(record.ports);
    assert(record.ports.contains(port));
}

/// Once a packet has been observed at `now`, no record that is left is older
/// than the window.
pub proof fn lemma_no_record_outlives_the_window(
    m: TrackerModel,
    ip: Ipv4Address,
    port: u16,
    now: u64,
    window: u64,
    threshold: usize,
)
    ensures
        forall|a: Ipv4Address| #[trigger]
            state_after(m, ip, port, now, window, threshold).contains_key(a) ==> !is_expired(
                state_after(m, ip, port, now, window, threshold)[a].window_start,
                now,
                window,
            ),
{
}

/// The start of a record never moves back: a source that has a record before
/// and after a packet has, afterwards, a start that is no earlier.
pub proof fn lemma_window_start_never_regresses(
    m: TrackerModel,
    ip: Ipv4Address,
    port: u16,
    now: u64,
    window: u64,
    threshold: usize,
    source: Ipv4Address,
)
    requires
        m.contains_key(source),
        state_after(m, ip, port, now, window, threshold).contains_key(source),
    ensures
        m[source].window_start <= state_after(
            m,
            ip,
            port,
            now,
            window,
            threshold,
        )[source].window_start,
{
}

/// A packet to a port that the live record of its source already holds
/// changes nothing in that record: the count that is kept, and the count
/// that a verdict reports, is the count from before.
pub proof fn lemma_repeated_port_is_not_counted_again(
    m: TrackerModel,
    ip: Ipv4Address,
    port: u16,
    now: u64,
    window: u64,
    threshold: usize,
)
    requires
        swept(m, now, window).contains_key(ip),
        swept(m, now, window)[ip].ports.contains(port),
    ensures
        counted(swept(m, now, window), ip, port, now) == swept(m, now, window)[ip],
        counted(swept(m, now, window), ip, port, now) == m[ip],
        verdict_after(m, ip, port, now, window, threshold) matches Verdict::ScanDetected {
            port_count,
            ..
        } ==> port_count == m[ip].ports.len(),
        state_after(m, ip, port, now, window, threshold).contains_key(ip) ==> state_after(
            m,
            ip,
            port,
            now,
            window,
            threshold,
        )[ip] == m[ip],
{
    let live = swept(m, now, window);
    assert(live[ip].ports.insert(port) =~= live[ip].ports);
    lemma_port_sets_are_small(m[ip].ports);
}

/// A source that has no live record when its packet arrives starts a new
/// count at one: below a threshold of two or more the record holds that one
/// port and begins `now`; otherwise the verdict reports one port.
pub proof fn lemma_fresh_record_counts_one(
    m: TrackerModel,
    ip: Ipv4Address,
    port: u16,
    now: u64,
    window: u64,
    threshold: usize,
)
    requires
        !swept(m, now, window).contains_key(ip),
    ensures
        counted(swept(m, now, window), ip, port, now) == (ActivityModel {
            ports: Set::<u16>::empty().insert(port),
            window_start: now,
        }),
        counted(swept(m, now, window), ip, port, now).ports.len() == 1,
        threshold > 1 ==> verdict_after(m, ip, port, now, window, threshold) == Verdict::NoAlert
            && state_after(m, ip, port, now, window, threshold).contains_key(ip) && state_after(
            m,
            ip,
            port,
            now,
            window,
            threshold,
        )[ip] == counted(swept(m, now, window), ip, port, now),
        threshold <= 1 ==> verdict_after(m, ip, port, now, window, threshold)
            == (Verdict::ScanDetected { source_ip: ip, port_count: 1 })
            && !state_after(m, ip, port, now, window, threshold).contains_key(ip),
{
}

/// A source that has been silent for longer than the window is forgotten:
/// whatever its record held, its next packet starts a fresh record with that
/// packet's port alone. `last_seen` is when its latest packet came, which is
/// no earlier than the start of its record.
pub proof fn lemma_silence_forgets(
    m: TrackerModel,
    ip: Ipv4Address,
    port: u16,
    last_seen: u64,
    now: u64,
    window: u64,
    threshold: usize,
)
    requires
        m.contains_key(ip),
        m[ip].window_start <= last_seen <= now,
        now - last_seen > window,
    ensures
        !swept(m, now, window).contains_key(ip),
        counted(swept(m, now, window), ip, port, now) == (ActivityModel {
            ports: Set::<u16>::empty().insert(port),
            window_start: now,
        }),
        counted(swept(m, now, window), ip, port, now).ports.len() == 1,
        threshold > 1 ==> state_after(m, ip, port, now, window, threshold)[ip].ports
            == Set::<u16>::empty().insert(port),
{
    lemma_fresh_record_counts_one(m, ip, port, now, window, threshold);
}

} // verus!
