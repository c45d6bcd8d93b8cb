use rust_ids::address::Ipv4Address;
use rust_ids::runs::{observe_run, Sighting};
use rust_ids::tracker::{ActivityTracker, Verdict};

fn prober() -> Ipv4Address {
    Ipv4Address::from_octets(10, 0, 0, 5)
}

fn other() -> Ipv4Address {
    Ipv4Address::from_octets(10, 0, 0, 77)
}

fn from(source: Ipv4Address, port: u16, at: u64) -> Sighting {
    Sighting { source, port, at }
}

#[test]
fn an_empty_run_changes_nothing() {
    let mut tracker = ActivityTracker::new();
    tracker.observe(prober(), 80, 0, 60, 5);
    assert_eq!(observe_run(&mut tracker, &[], 60, 5), vec![]);
    assert_eq!(tracker.port_count(prober()), 1);
}

#[test]
fn a_run_gives_the_verdicts_of_its_packets_one_by_one() {
    let run = [
        from(prober(), 22, 1),
        from(other(), 22, 2),
        from(prober(), 80, 3),
        from(prober(), 443, 4),
        from(prober(), 8080, 5),
    ];
    let mut replayed = ActivityTracker::new();
    let verdicts = observe_run(&mut replayed, &run, 60, 3);
    let mut stepped = ActivityTracker::new();
    let expected: Vec<Verdict> =
        run.iter().map(|s| stepped.observe(s.source, s.port, s.at, 60, 3)).collect();
    assert_eq!(verdicts, expected);
    assert_eq!(
        verdicts,
        vec![
            Verdict::NoAlert,
            Verdict::NoAlert,
            Verdict::NoAlert,
            Verdict::ScanDetected { source_ip: prober(), port_count: 3 },
            Verdict::NoAlert,
        ]
    );
    assert_eq!(replayed.port_count(prober()), 1);
    assert!(replayed.has_port(prober(), 8080));
    assert_eq!(replayed.port_count(other()), 1);
}

#[test]
fn below_the_threshold_a_run_is_silent_and_keeps_every_port() {
    // Nine distinct ports from the prober, some twice, with another source
    // in between; everything within 60 ticks of the first packet.
    let mut run = Vec::new();
    for k in 0..9u16 {
        run.push(from(prober(), 1000 + k, 100 + k as u64));
        run.push(from(other(), 2000 + k, 100 + k as u64));
        run.push(from(prober(), 1000 + k / 2, 130 + k as u64));
    }
    run.push(from(prober(), 1000, 160));
    let mut tracker = ActivityTracker::new();
    let verdicts = observe_run(&mut tracker, &run, 60, 10);
    assert!(verdicts.iter().all(|v| *v == Verdict::NoAlert));
    assert_eq!(tracker.port_count(prober()), 9);
    for k in 0..9u16 {
        assert!(tracker.has_port(prober(), 1000 + k));
    }
    assert_eq!(tracker.activity(prober()).unwrap().window_start(), 100);
}

#[test]
fn the_packet_that_reaches_the_threshold_is_the_only_one_reported() {
    let mut run = Vec::new();
    for k in 0..9u16 {
        run.push(from(prober(), 1000 + k, 100 + k as u64));
        run.push(from(prober(), 1000, 100 + k as u64));
    }
    run.push(from(prober(), 5000, 160));
    let mut tracker = ActivityTracker::new();
    let verdicts = observe_run(&mut tracker, &run, 60, 10);
    let reported: Vec<usize> = verdicts
        .iter()
        .enumerate()
        .filter(|(_, v)| matches!(v, Verdict::ScanDetected { .. }))
        .map(|(i, _)| i)
        .collect();
    assert_eq!(reported, vec![run.len() - 1]);
    assert_eq!(
        verdicts[run.len() - 1],
        Verdict::ScanDetected { source_ip: prober(), port_count: 10 }
    );
    assert!(!tracker.is_tracked(prober()));
}

#[test]
fn an_expired_record_at_the_start_does_not_count() {
    let mut tracker = ActivityTracker::new();
    tracker.observe(prober(), 1, 0, 60, 3);
    tracker.observe(prober(), 2, 0, 60, 3);
    let run = [from(prober(), 3, 100), from(prober(), 4, 110)];
    assert_eq!(observe_run(&mut tracker, &run, 60, 3), vec![Verdict::NoAlert, Verdict::NoAlert]);
    assert_eq!(tracker.port_count(prober()), 2);
    assert!(tracker.has_port(prober(), 3) && tracker.has_port(prober(), 4));
    assert_eq!(tracker.activity(prober()).unwrap().window_start(), 100);
}
