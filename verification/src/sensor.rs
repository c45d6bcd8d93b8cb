//! The sensor loop as a state machine: one event in, one reaction out.
//!
//! The caller fetches frames and reads the clock; the sensor decides. Time is
//! counted in ticks of a nanosecond on a clock that the caller supplies.

use crate::alert::Alert;
use crate::decoder::{decode, decode_frame, DecodeOutcome};
use crate::tracker::{
    age, elapsed, state_after, verdict_after, ActivityModel, ActivityTracker, TrackerModel,
    Verdict,
};
use crate::address::Ipv4Address;
use vstd::prelude::*;

verus! {

/// Ticks in a second.
pub const TICKS_PER_SECOND: u64 = 1_000_000_000;

/// Distinct ports that raise an alert, unless configured otherwise.
pub const DEFAULT_THRESHOLD: usize = 20;

/// Seconds in a window, unless configured otherwise.
pub const DEFAULT_WINDOW_SECS: u64 = 60;

/// Seconds between two heartbeats, unless configured otherwise.
pub const DEFAULT_HEARTBEAT_SECS: u64 = 30;

/// A length of `secs` seconds in ticks, or the longest length there is where
/// that many ticks cannot be counted.
pub open spec fn ticks_of(secs: u64) -> u64 {
    if secs * TICKS_PER_SECOND > u64::MAX {
        u64::MAX
    } else {
        (secs * TICKS_PER_SECOND) as u64
    }
}

/// A length of `secs` seconds in ticks.
pub fn seconds_to_ticks(secs: u64) -> (ticks: u64)
    ensures
        ticks == ticks_of(secs),
{
    if secs > u64::MAX / TICKS_PER_SECOND {
        u64::MAX
    } else {
        secs * TICKS_PER_SECOND
    }
}

/// What the sensor is told to do.
#[derive(Clone, Copy, Debug, PartialEq, Eq, Structural)]
pub struct SensorConfig {
    /// Distinct destination ports within one window that raise an alert.
    pub threshold: usize,
    /// Length of the window, in seconds.
    pub window_secs: u64,
    /// Time between two heartbeats, in seconds.
    pub heartbeat_secs: u64,
}

impl SensorConfig {
    /// A threshold of at least one port and a window of at least one second.
    pub open spec fn is_valid(self) -> bool {
        self.threshold >= 1 && self.window_secs >= 1
    }

    /// The configuration with the given threshold and window and the usual
    /// heartbeat, if both are positive.
    pub fn new(threshold: usize, window_secs: u64) -> (r: Option<SensorConfig>)
        ensures
            r == (if threshold >= 1 && window_secs >= 1 {
                Some(SensorConfig { threshold, window_secs, heartbeat_secs: DEFAULT_HEARTBEAT_SECS })
            } else {
                None
            }),
            r matches Some(config) ==> config.is_valid(),
    {
        if threshold >= 1 && window_secs >= 1 {
            Some(SensorConfig { threshold, window_secs, heartbeat_secs: DEFAULT_HEARTBEAT_SECS })
        } else {
            None
        }
    }

    /// Whether threshold and window are both positive.
    pub fn check(&self) -> (ok: bool)
        ensures
            ok == self.is_valid(),
    {
        self.threshold >= 1 && self.window_secs >= 1
    }
}

impl Default for SensorConfig {
    fn default() -> (config: SensorConfig)
        ensures
            config == (SensorConfig {
                threshold: DEFAULT_THRESHOLD,
                window_secs: DEFAULT_WINDOW_SECS,
                heartbeat_secs: DEFAULT_HEARTBEAT_SECS,
            }),
            config.is_valid(),
    {
        SensorConfig {
            threshold: DEFAULT_THRESHOLD,
            window_secs: DEFAULT_WINDOW_SECS,
            heartbeat_secs: DEFAULT_HEARTBEAT_SECS,
        }
    }
}

/// What the frame source reports.
#[derive(Debug, PartialEq, Eq)]
pub enum SensorEvent {
    /// A frame was captured.
    FrameAvailable(Vec<u8>),
    /// No frame came within the read timeout.
    ReadTimedOut,
    /// The frame source has failed for good.
    SourceFailed,
}

/// What the caller is to do after an event.
#[derive(Clone, Copy, Debug, PartialEq, Eq, Structural)]
pub struct Reaction {
    /// Why the frame was dropped, if one came and was not decoded.
    pub dropped: Option<DecodeOutcome>,
    /// The alert to emit, if the frame brought its source to the threshold.
    pub alert: Option<Alert>,
    /// Whether a heartbeat is due.
    pub heartbeat: bool,
    /// Whether the loop ends.
    pub stop: bool,
}

/// The sensor as a mathematical value.
pub struct SensorModel {
    pub config: SensorConfig,
    pub records: TrackerModel,
    pub last_heartbeat: u64,
    pub stopped: bool,
}

/// The alert that a verdict calls for, if it calls for one.
pub open spec fn alert_for(verdict: Verdict, window_secs: u64) -> Option<Alert> {
    match verdict {
        Verdict::ScanDetected { source_ip, port_count } => Some(
            Alert { source_ip, port_count, window_secs },
        ),
        Verdict::NoAlert => None,
    }
}

/// The frame that an event brings, if it brings one.
pub open spec fn frame_of(event: SensorEvent) -> Option<Seq<u8>> {
    match event {
        SensorEvent::FrameAvailable(bytes) => Some(bytes@),
        _ => None,
    }
}

impl SensorModel {
    /// Whether an event ends the loop: the sensor has stopped already, or
    /// the frame source has failed.
    pub open spec fn ends_with(self, event: SensorEvent) -> bool {
        self.stopped || event is SourceFailed
    }

    /// Whether a heartbeat is due at `now`.
    pub open spec fn heartbeat_due(self, now: u64) -> bool {
        age(self.last_heartbeat, now) >= ticks_of(self.config.heartbeat_secs)
    }

    /// The verdict of the tracker on the frame of an event, if the event
    /// brings a frame that decodes.
    pub open spec fn verdict_on(self, event: SensorEvent, now: u64) -> Verdict {
        match frame_of(event) {
            Some(frame) => match decode_frame(frame) {
                Ok(segment) => verdict_after(
                    self.records,
                    segment.source_ip,
                    segment.destination_port,
                    now,
                    ticks_of(self.config.window_secs),
                    self.config.threshold,
                ),
                Err(_) => Verdict::NoAlert,
            },
            None => Verdict::NoAlert,
        }
    }

    /// The reaction to an event that comes at `now`.
    pub open spec fn reaction_to(self, event: SensorEvent, now: u64) -> Reaction {
        if self.ends_with(event) {
            Reaction { dropped: None, alert: None, heartbeat: false, stop: true }
        } else {
            Reaction {
                dropped: match frame_of(event) {
                    Some(frame) => match decode_frame(frame) {
                        Ok(_) => None,
                        Err(outcome) => Some(outcome),
                    },
                    None => None,
                },
                alert: alert_for(self.verdict_on(event, now), self.config.window_secs),
                heartbeat: self.heartbeat_due(now),
                stop: false,
            }
        }
    }

    /// The records after an event that comes at `now`: a frame that decodes
    /// is observed, and nothing else touches the records.
    pub open spec fn records_after(self, event: SensorEvent, now: u64) -> TrackerModel {
        if self.ends_with(event) {
            self.records
        } else {
            match frame_of(event) {
                Some(frame) => match decode_frame(frame) {
                    Ok(segment) => state_after(
                        self.records,
                        segment.source_ip,
                        segment.destination_port,
                        now,
                        ticks_of(self.config.window_secs),
                        self.config.threshold,
                    ),
                    Err(_) => self.records,
                },
                None => self.records,
            }
        }
    }

    /// The sensor after an event that comes at `now`.
    pub open spec fn after(self, event: SensorEvent, now: u64) -> SensorModel {
        SensorModel {
            config: self.config,
            records: self.records_after(event, now),
            last_heartbeat: if !self.ends_with(event) && self.heartbeat_due(now) {
                now
            } else {
                self.last_heartbeat
            },
            stopped: self.ends_with(event),
        }
    }
}

/// The sensor: its configuration, the tracker, and the time of the last
/// heartbeat.
pub struct Sensor {
    config: SensorConfig,
    tracker: ActivityTracker,
    last_heartbeat: u64,
    stopped: bool,
}

impl View for Sensor {
    type V = SensorModel;

    closed spec fn view(&self) -> SensorModel {
        SensorModel {
            config: self.config,
            records: self.tracker@,
            last_heartbeat: self.last_heartbeat,
            stopped: self.stopped,
        }
    }
}

impl Sensor {
    /// A sensor that starts at `now` with no records.
    pub fn new(config: SensorConfig, now: u64) -> (sensor: Sensor)
        ensures
            sensor@ == (SensorModel {
                config,
                records: Map::<Ipv4Address, ActivityModel>::empty(),
                last_heartbeat: now,
                stopped: false,
            }),
    {
        Sensor { config, tracker: ActivityTracker::new(), last_heartbeat: now, stopped: false }
    }

    /// The configuration.
    pub fn config(&self) -> (config: SensorConfig)
        ensures
            config == self@.config,
    {
        self.config
    }

    /// The tracker.
    pub fn tracker(&self) -> (tracker: &ActivityTracker)
        ensures
            tracker@ == self@.records,
    {
        &self.tracker
    }

    /// When the last heartbeat was due, or when the sensor started.
    pub fn last_heartbeat(&self) -> (at: u64)
        ensures
            at == self@.last_heartbeat,
    {
        self.last_heartbeat
    }

    /// Whether the frame source has failed.
    pub fn is_stopped(&self) -> (stopped: bool)
        ensures
            stopped == self@.stopped,
    {
        self.stopped
    }

    /// Says whether a heartbeat is due at `now`, and if so counts the next
    /// interval from `now`.
    fn beat(&mut self, now: u64) -> (due: bool)
        ensures
            due == old(self)@.heartbeat_due(now),
            final(self)@ == (SensorModel {
                last_heartbeat: if due {
                    now
                } else {
                    old(self)@.last_heartbeat
                },
                ..old(self)@
            }),
    {
        let due: bool = elapsed(self.last_heartbeat, now) >= seconds_to_ticks(
            self.config.heartbeat_secs,
        );
        if due {
            self.last_heartbeat = now;
        }
        due
    }

    /// Takes one event that comes at `now`.
    ///
    /// A captured frame is decoded and, if it holds a TCP segment, observed
    /// by the tracker; the reaction carries the alert where the source has
    /// reached the threshold, or says why the frame was dropped. A failed
    /// frame source stops the sensor, and a stopped sensor reacts to nothing
    /// any more. Otherwise, whatever the event, the reaction says whether a
    /// heartbeat is due.
    pub fn step(&mut self, event: &SensorEvent, now: u64) -> (reaction: Reaction)
        ensures
            reaction == old(self)@.reaction_to(*event, now),
            final(self)@ == old(self)@.after(*event, now),
    {
        if self.stopped {
            return Reaction { dropped: None, alert: None, heartbeat: false, stop: true };
        }
        match event {
            SensorEvent::SourceFailed => {
                self.stopped = true;
                Reaction { dropped: None, alert: None, heartbeat: false, stop: true }
            },
            SensorEvent::ReadTimedOut => {
                let heartbeat = self.beat(now);
                Reaction { dropped: None, alert: None, heartbeat, stop: false }
            },
            SensorEvent::FrameAvailable(bytes) => {
                let mut dropped: Option<DecodeOutcome> = None;
                let mut alert: Option<Alert> = None;
                match decode(bytes.as_slice()) {
                    Ok(segment) => {
                        let verdict = self.tracker.observe(
                            segment.source_ip,
                            segment.destination_port,
                            now,
                            seconds_to_ticks(self.config.window_secs),
                            self.config.threshold,
                        );
                        match verdict {
                            Verdict::ScanDetected { source_ip, port_count } => {
                                alert =
                                Some(
                                    Alert {
                                        source_ip,
                                        port_count,
                                        window_secs: self.config.window_secs,
                                    },
                                );
                            },
                            Verdict::NoAlert => {},
                        }
                    },
                    Err(outcome) => {
                        dropped = Some(outcome);
                    },
                }
                let heartbeat = self.beat(now);
                Reaction { dropped, alert, heartbeat, stop: false }
            },
        }
    }
}

/// Only a failed frame source ends the loop: a frame that cannot be decoded
/// and a read that times out never do.
pub proof fn lemma_only_source_failure_stops(s: SensorModel, event: SensorEvent, now: u64)
    requires
        !s.stopped,
    ensures
        s.reaction_to(event, now).stop <==> event is SourceFailed,
        s.after(event, now).stopped <==> event is SourceFailed,
{
}

/// A frame that is not decoded is dropped without a trace: the records stay
/// as they are and no alert is raised. The same holds of a read that times
/// out.
pub proof fn lemma_dropped_frames_leave_no_trace(s: SensorModel, event: SensorEvent, now: u64)
    requires
        frame_of(event) matches Some(frame) ==> decode_frame(frame) is Err,
    ensures
        s.after(event, now).records == s.records,
        s.reaction_to(event, now).alert is None,
{
}

/// The heartbeat depends on the clock alone: while the sensor runs, any
/// event at `now`, frame or timeout, meets the same answer to whether a
/// heartbeat is due, and a heartbeat that was due starts the next interval.
pub proof fn lemma_heartbeat_ignores_traffic(s: SensorModel, event: SensorEvent, now: u64)
    requires
        !s.ends_with(event),
    ensures
        s.reaction_to(event, now).heartbeat == s.heartbeat_due(now),
        s.heartbeat_due(now) ==> s.after(event, now).last_heartbeat == now,
        !s.heartbeat_due(now) ==> s.after(event, now).last_heartbeat == s.last_heartbeat,
{
}

/// A frame that decodes is handed to the tracker as it is, with the window
/// of the configuration in ticks: the reaction carries an alert exactly when
/// the tracker's verdict reports a scan, with the source and the count of
/// that verdict.
pub proof fn lemma_alert_follows_verdict(s: SensorModel, frame: Vec<u8>, now: u64)
    requires
        !s.stopped,
        decode_frame(frame@) is Ok,
    ensures
        ({
            let segment = decode_frame(frame@).unwrap();
            let verdict = verdict_after(
                s.records,
                segment.source_ip,
                segment.destination_port,
                now,
                ticks_of(s.config.window_secs),
                s.config.threshold,
            );
            let reaction = s.reaction_to(SensorEvent::FrameAvailable(frame), now);
            &&& reaction.alert == alert_for(verdict, s.config.window_secs)
            &&& reaction.alert is Some <==> verdict is ScanDetected
            &&& reaction.dropped is None
        }),
{
}

} // verus!
