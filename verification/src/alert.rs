//! The lines that the sensor writes, and the limit on how often the alert
//! sound is played.

use crate::address::Ipv4Address;
use crate::clock::{render_utc, utc_text};
use crate::text::{append_decimal, decimal};
use crate::tracker::{age, elapsed};
use vstd::prelude::*;
use vstd::string::*;

verus! {

/// What an alert reports: the source, the number of distinct ports it
/// reached, and the window, in seconds, in which it did.
#[derive(Clone, Copy, Debug, PartialEq, Eq, Structural)]
pub struct Alert {
    pub source_ip: Ipv4Address,
    pub port_count: usize,
    pub window_secs: u64,
}

/// The alert line: the timestamp in square brackets, a warning sign, and
/// `Potential port scan from <source>: <count> ports in <window>s`.
pub open spec fn alert_text(timestamp: Seq<char>, alert: Alert) -> Seq<char> {
    "["@ + timestamp + "] \u{26a0}\u{fe0f} Potential port scan from "@ + alert.source_ip.dotted()
        + ": "@ + decimal(alert.port_count as nat) + " ports in "@ + decimal(
        alert.window_secs as nat,
    ) + "s"@
}

/// The heartbeat line: the timestamp in square brackets and a note that the
/// sensor is alive.
pub open spec fn heartbeat_text(timestamp: Seq<char>) -> Seq<char> {
    "["@ + timestamp + "] \u{2705} IDS still running..."@
}

/// Writes the alert line for `alert` under the given timestamp.
pub fn alert_line(timestamp: &str, alert: &Alert) -> (line: String)
    ensures
        line@ == alert_text(timestamp@, *alert),
{
    let mut line = String::new();
    line.append("[");
    line.append(timestamp);
    line.append("] \u{26a0}\u{fe0f} Potential port scan from ");
    alert.source_ip.append_to(&mut line);
    line.append(": ");
    append_decimal(&mut line, alert.port_count as u64);
    line.append(" ports in ");
    append_decimal(&mut line, alert.window_secs);
    line.append("s");
    line
}

/// Writes the heartbeat line under the given timestamp.
pub fn heartbeat_line(timestamp: &str) -> (line: String)
    ensures
        line@ == heartbeat_text(timestamp@),
{
    let mut line = String::new();
    line.append("[");
    line.append(timestamp);
    line.append("] \u{2705} IDS still running...");
    line
}

/// Writes the alert line for `alert` as of the wall-clock instant
/// `unix_seconds`; `None` where that instant has no text.
pub fn alert_line_at(unix_seconds: i64, alert: &Alert) -> (r: Option<String>)
    ensures
        r is Some == utc_text(unix_seconds) is Some,
        r matches Some(line) ==> line@ == alert_text(utc_text(unix_seconds).unwrap(), *alert),
{
    match render_utc(unix_seconds) {
        Some(timestamp) => Some(alert_line(timestamp.as_str(), alert)),
        None => None,
    }
}

/// Writes the heartbeat line as of the wall-clock instant `unix_seconds`;
/// `None` where that instant has no text.
pub fn heartbeat_line_at(unix_seconds: i64) -> (r: Option<String>)
    ensures
        r is Some == utc_text(unix_seconds) is Some,
        r matches Some(line) ==> line@ == heartbeat_text(utc_text(unix_seconds).unwrap()),
{
    match render_utc(unix_seconds) {
        Some(timestamp) => Some(heartbeat_line(timestamp.as_str())),
        None => None,
    }
}

/// Seconds between two alert sounds, unless configured otherwise.
pub const DEFAULT_SOUND_COOLDOWN_SECS: u64 = 5;

/// Limits how often the alert sound is played: a sound is let through only
/// when none was let through during the last `cooldown` ticks.
#[derive(Clone, Copy, Debug, PartialEq, Eq, Structural)]
pub struct SoundLimiter {
    /// The least distance, in ticks, between two sounds.
    pub cooldown: u64,
    /// When the last sound was let through, if any was.
    pub last_sound: Option<u64>,
}

impl SoundLimiter {
    /// Whether a sound asked for at `now` is let through.
    pub open spec fn lets_through(self, now: u64) -> bool {
        match self.last_sound {
            Some(last) => age(last, now) >= self.cooldown,
            None => true,
        }
    }

    /// The limiter after a sound was asked for at `now`.
    pub open spec fn after_request(self, now: u64) -> SoundLimiter {
        if self.lets_through(now) {
            SoundLimiter { cooldown: self.cooldown, last_sound: Some(now) }
        } else {
            self
        }
    }

    /// A limiter that has let no sound through yet.
    pub fn new(cooldown: u64) -> (limiter: SoundLimiter)
        ensures
            limiter == (SoundLimiter { cooldown, last_sound: None }),
    {
        SoundLimiter { cooldown, last_sound: None }
    }

    /// Asks for a sound at `now`: says whether it is let through, and
    /// remembers it if so.
    pub fn request(&mut self, now: u64) -> (play: bool)
        ensures
            play == old(self).lets_through(now),
            *final(self) == old(self).after_request(now),
    {
        let play: bool = match self.last_sound {
            Some(last) => elapsed(last, now) >= self.cooldown,
            None => true,
        };
        if play {
            self.last_sound = Some(now);
        }
        play
    }
}

/// What the emitter hands to the sinks for one alert.
#[derive(Debug, PartialEq, Eq)]
pub struct Emission {
    /// The line for the console and the log.
    pub line: String,
    /// Whether the sound is to be played.
    pub play_sound: bool,
}

/// Turns alerts into lines and decides when the sound is played.
#[derive(Clone, Copy, Debug, PartialEq, Eq, Structural)]
pub struct AlertEmitter {
    pub limiter: SoundLimiter,
}

impl AlertEmitter {
    /// An emitter whose sound is played at most once in `sound_cooldown`
    /// ticks.
    pub fn new(sound_cooldown: u64) -> (emitter: AlertEmitter)
        ensures
            emitter.limiter == (SoundLimiter { cooldown: sound_cooldown, last_sound: None }),
    {
        AlertEmitter { limiter: SoundLimiter::new(sound_cooldown) }
    }

    /// Emits `alert`: writes its line under `timestamp` and asks for the
    /// sound at `now`.
    pub fn emit(&mut self, alert: &Alert, timestamp: &str, now: u64) -> (emission: Emission)
        ensures
            emission.line@ == alert_text(timestamp@, *alert),
            emission.play_sound == old(self).limiter.lets_through(now),
            final(self).limiter == old(self).limiter.after_request(now),
    {
        let line = alert_line(timestamp, alert);
        let play_sound = self.limiter.request(now);
        Emission { line, play_sound }
    }

    /// Emits `alert` as of the wall-clock instant `unix_seconds`, asking for
    /// the sound at `now`. Where that instant has no text nothing is
    /// emitted and no sound is asked for.
    pub fn emit_at(&mut self, alert: &Alert, unix_seconds: i64, now: u64) -> (r: Option<Emission>)
        ensures
            r is Some == utc_text(unix_seconds) is Some,
            r matches Some(emission) ==> emission.line@ == alert_text(
                utc_text(unix_seconds).unwrap(),
                *alert,
            ) && emission.play_sound == old(self).limiter.lets_through(now)
                && final(self).limiter == old(self).limiter.after_request(now),
            r is None ==> final(self).limiter == old(self).limiter,
    {
        match render_utc(unix_seconds) {
            Some(timestamp) => Some(self.emit(alert, timestamp.as_str(), now)),
            None => None,
        }
    }
}

/// Two sounds are never closer than the cooldown: after a sound was let
/// through at `earlier`, a request at or after that moment is let through
/// only once the whole cooldown has passed.
pub proof fn lemma_sounds_keep_their_distance(limiter: SoundLimiter, earlier: u64, later: u64)
    requires
        limiter.lets_through(earlier),
        earlier <= later,
        limiter.after_request(earlier).lets_through(later),
    ensures
        later - earlier >= limiter.cooldown,
{
}

/// A request that is turned down leaves the limiter as it was, so the sound
/// that was in the way stays in the way for its whole cooldown.
pub proof fn lemma_refused_sound_changes_nothing(limiter: SoundLimiter, now: u64)
    requires
        !limiter.lets_through(now),
    ensures
        limiter.after_request(now) == limiter,
{
}

} // verus!
