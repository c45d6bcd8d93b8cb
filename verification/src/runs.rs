//! Runs of packets, and what the tracker makes of them from first to last.

use crate::address::Ipv4Address;
use crate::tracker::{
    counted, is_expired, lemma_port_sets_are_small, state_after, swept, verdict_after,
    ActivityModel, ActivityTracker, TrackerModel, Verdict,
};
use vstd::prelude::*;
use vstd::set_lib::*;

verus! {

/// One packet as the tracker sees it: who sent it, to which port, and when.
#[derive(Clone, Copy, Debug, PartialEq, Eq, Structural)]
pub struct Sighting {
    pub source: Ipv4Address,
    pub port: u16,
    pub at: u64,
}

/// The records after the packets of `run` have been observed in order.
pub open spec fn after_run(
    m: TrackerModel,
    run: Seq<Sighting>,
    window: u64,
    threshold: usize,
) -> TrackerModel
    decreases run.len(),
{
    if run.len() == 0 {
        m
    } else {
        state_after(
            after_run(m, run.drop_last(), window, threshold),
            run.last().source,
            run.last().port,
            run.last().at,
            window,
            threshold,
        )
    }
}

/// The verdict on the last packet of `run`.
pub open spec fn last_verdict(
    m: TrackerModel,
    run: Seq<Sighting>,
    window: u64,
    threshold: usize,
) -> Verdict
    recommends
        run.len() > 0,
{
    verdict_after(
        after_run(m, run.drop_last(), window, threshold),
        run.last().source,
        run.last().port,
        run.last().at,
        window,
        threshold,
    )
}

/// How many packets of `run` made the tracker report `ip`.
pub open spec fn alerts_on(
    m: TrackerModel,
    run: Seq<Sighting>,
    ip: Ipv4Address,
    window: u64,
    threshold: usize,
) -> nat
    decreases run.len(),
{
    if run.len() == 0 {
        0
    } else {
        alerts_on(m, run.drop_last(), ip, window, threshold) + (if run.last().source == ip
            && last_verdict(m, run, window, threshold) is ScanDetected {
            1nat
        } else {
            0nat
        })
    }
}

/// The distinct destination ports that `ip` sent to in `run`.
pub open spec fn ports_from(run: Seq<Sighting>, ip: Ipv4Address) -> Set<u16> {
    Set::new(
        |p: u16| exists|i: int| 0 <= i < run.len() && (#[trigger] run[i]).source == ip && run[i].port == p,
    )
}

/// Every packet of `run` comes within one window of its first packet.
pub open spec fn within_one_window(run: Seq<Sighting>, window: u64) -> bool {
    forall|i: int| 0 <= i < run.len() ==> !is_expired(run[0].at, (#[trigger] run[i]).at, window)
}

/// The verdicts on the packets of `run`, one for each, in order.
pub open spec fn verdicts_of(
    m: TrackerModel,
    run: Seq<Sighting>,
    window: u64,
    threshold: usize,
) -> Seq<Verdict> {
    Seq::new(run.len(), |i: int| last_verdict(m, run.take(i + 1), window, threshold))
}

/// Has the tracker observe the packets of `run` in order, and returns its
/// verdict on each.
pub fn observe_run(
    tracker: &mut ActivityTracker,
    run: &[Sighting],
    window: u64,
    threshold: usize,
) -> (verdicts: Vec<Verdict>)
    ensures
        final(tracker)@ == after_run(old(tracker)@, run@, window, threshold),
        verdicts@ == verdicts_of(old(tracker)@, run@, window, threshold),
{
    let mut verdicts: Vec<Verdict> = Vec::new();
    let mut i: usize = 0;
    while i < run.len()
        invariant
            i <= run.len(),
            tracker@ == after_run(old(tracker)@, run@.take(i as int), window, threshold),
            verdicts@.len() == i,
            forall|j: int|
                0 <= j < i ==> #[trigger] verdicts@[j] == last_verdict(
                    old(tracker)@,
                    run@.take(j + 1),
                    window,
                    threshold,
                ),
        decreases run.len() - i,
    {
        let sighting: Sighting = run[i];
        assert(run@.take(i + 1).drop_last() =~= run@.take(i as int));
        let verdict = tracker.observe(
            sighting.source,
            sighting.port,
            sighting.at,
            window,
            threshold,
        );
        verdicts.push(verdict);
        i = i + 1;
    }
    assert(run@.take(run@.len() as int) =~= run@);
    verdicts
}

/// The last packet of a run adds its port to the ports of its source, and
/// nothing to those of another source.
pub proof fn lemma_ports_from_grows_by_last(run: Seq<Sighting>, ip: Ipv4Address)
    requires
        run.len() > 0,
    ensures
        run.last().source == ip ==> ports_from(run, ip) == ports_from(run.drop_last(), ip).insert(
            run.last().port,
        ),
        run.last().source != ip ==> ports_from(run, ip) == ports_from(run.drop_last(), ip),
        ports_from(run.drop_last(), ip).subset_of(ports_from(run, ip)),
{
    let head = run.drop_last();
    let grown = if run.last().source == ip {
        ports_from(head, ip).insert(run.last().port)
    } else {
        ports_from(head, ip)
    };
    assert forall|p: u16| ports_from(run, ip).contains(p) implies grown.contains(p) by {
        let i = choose|i: int|
            0 <= i < run.len() && (#[trigger] run[i]).source == ip && run[i].port == p;
        if i < head.len() {
            assert(head[i].source == ip && head[i].port == p);
        }
    }
    assert forall|p: u16| grown.contains(p) implies ports_from(run, ip).contains(p) by {
        if ports_from(head, ip).contains(p) {
            let i = choose|i: int|
                0 <= i < head.len() && (#[trigger] head[i]).source == ip && head[i].port == p;
            assert(run[i] == head[i]);
        }
    }
}

/// While a source stays under the threshold it raises no alert.
///
/// Take a run that begins with a packet from `ip`, at a moment when `ip` has
/// no live record, and whose packets all come within one window of that
/// first one; other sources may send in between. If `ip` sends to fewer
/// distinct ports than the threshold, no packet of the run makes the tracker
/// report `ip`, and at the end its record holds exactly those ports and
/// begins with the first packet.
pub proof fn lemma_no_alert_below_threshold(
    m: TrackerModel,
    run: Seq<Sighting>,
    ip: Ipv4Address,
    window: u64,
    threshold: usize,
)
    requires
        run.len() > 0,
        run[0].source == ip,
        !swept(m, run[0].at, window).contains_key(ip),
        within_one_window(run, window),
        ports_from(run, ip).len() < threshold,
    ensures
        alerts_on(m, run, ip, window, threshold) == 0,
        after_run(m, run, window, threshold).contains_key(ip),
        after_run(m, run, window, threshold)[ip] == (ActivityModel {
            ports: ports_from(run, ip),
            window_start: run[0].at,
        }),
    decreases run.len(),
{
    let head = run.drop_last();
    lemma_ports_from_grows_by_last(run, ip);
    lemma_port_sets_are_small(ports_from(run, ip));
    if head.len() == 0 {
        assert(alerts_on(m, head, ip, window, threshold) == 0);
        assert(ports_from(head, ip) =~= Set::<u16>::empty());
    } else {
        assert(within_one_window(head, window));
        lemma_len_subset(ports_from(head, ip), ports_from(run, ip));
        lemma_no_alert_below_threshold(m, head, ip, window, threshold);
    }
}

/// The packet that brings a source to the threshold raises exactly one alert
/// and resets its record.
///
/// Take a run as in `lemma_no_alert_below_threshold` whose last packet is
/// from `ip`. If `ip` was under the threshold before that packet and is not
/// under it after, then that packet, and no earlier one, makes the tracker
/// report `ip`; the count reported is the threshold; and `ip` has no record
/// left when the run ends.
pub proof fn lemma_one_alert_at_threshold(
    m: TrackerModel,
    run: Seq<Sighting>,
    ip: Ipv4Address,
    window: u64,
    threshold: usize,
)
    requires
        run.len() > 0,
        run[0].source == ip,
        run.last().source == ip,
        !swept(m, run[0].at, window).contains_key(ip),
        within_one_window(run, window),
        ports_from(run.drop_last(), ip).len() < threshold <= ports_from(run, ip).len(),
    ensures
        alerts_on(m, run.drop_last(), ip, window, threshold) == 0,
        alerts_on(m, run, ip, window, threshold) == 1,
        last_verdict(m, run, window, threshold) == (Verdict::ScanDetected {
            source_ip: ip,
            port_count: threshold,
        }),
        !after_run(m, run, window, threshold).contains_key(ip),
{
    let head = run.drop_last();
    let last = run.last();
    lemma_ports_from_grows_by_last(run, ip);
    lemma_port_sets_are_small(ports_from(run, ip));
    lemma_port_sets_are_small(ports_from(head, ip));
    if head.len() == 0 {
        assert(alerts_on(m, head, ip, window, threshold) == 0);
    } else {
        assert(within_one_window(head, window));
        lemma_no_alert_below_threshold(m, head, ip, window, threshold);
    }
    let live = swept(after_run(m, head, window, threshold), last.at, window);
    assert(counted(live, ip, last.port, last.at).ports == ports_from(run, ip));
}

} // verus!
