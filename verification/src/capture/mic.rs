use vstd::prelude::*;

use crate::text::{clone_opt_string, opt_view};

verus! {

/// Nanoseconds in one millisecond.
pub const NANOS_PER_MILLI: u128 = 1_000_000;

/// Nanoseconds in one second.
pub const NANOS_PER_SECOND: u128 = 1_000_000_000;

/// How long the watchdog waits for a first frame, and how long between frames, in
/// nanoseconds.
#[derive(Debug, Clone, Copy, PartialEq, Eq, Structural)]
pub struct CaptureWatchdogConfig {
    pub arming_timeout: u128,
    pub stall_timeout: u128,
}

impl CaptureWatchdogConfig {
    /// Both timeouts are positive.
    pub open spec fn valid(self) -> bool {
        self.arming_timeout > 0 && self.stall_timeout > 0
    }

    /// Derives the watchdog timeouts from their configured values in milliseconds.
    pub fn from_millis(arming_timeout_ms: u64, stall_timeout_ms: u64) -> (cfg: Self)
        ensures
            cfg.arming_timeout == arming_timeout_ms * NANOS_PER_MILLI,
            cfg.stall_timeout == stall_timeout_ms * NANOS_PER_MILLI,
            cfg.valid() <==> arming_timeout_ms > 0 && stall_timeout_ms > 0,
    {
        CaptureWatchdogConfig {
            arming_timeout: (arming_timeout_ms as u128) * NANOS_PER_MILLI,
            stall_timeout: (stall_timeout_ms as u128) * NANOS_PER_MILLI,
        }
    }
}

/// What the watchdog concludes about a live capture.
#[derive(Debug, Clone, Copy, PartialEq, Eq, Structural)]
pub struct WatchdogSnapshot {
    pub armed: bool,
    pub stalled: bool,
    pub first_frame_seen: bool,
}

impl WatchdogSnapshot {
    /// A stalled capture has produced input, and a capture that produced input is armed.
    pub open spec fn consistent(self) -> bool {
        (self.stalled ==> self.first_frame_seen) && (self.first_frame_seen ==> self.armed)
    }

    /// The snapshot reported when the watchdog's state cannot be read.
    pub open spec fn spec_fail_safe() -> WatchdogSnapshot {
        WatchdogSnapshot { armed: false, stalled: true, first_frame_seen: false }
    }

    /// The snapshot to report when the watchdog's state cannot be read: not armed, stalled.
    pub fn fail_safe() -> (s: Self)
        ensures
            s == Self::spec_fail_safe(),
    {
        WatchdogSnapshot { armed: false, stalled: true, first_frame_seen: false }
    }
}

/// Time elapsed on a monotonic clock between `since` and `now`; zero if `now` is earlier.
pub open spec fn spec_elapsed(now: u128, since: u128) -> nat {
    if now >= since {
        (now - since) as nat
    } else {
        0
    }
}

/// Time elapsed on a monotonic clock between `since` and `now`; zero if `now` is earlier.
pub fn elapsed(now: u128, since: u128) -> (d: u128)
    ensures
        d == spec_elapsed(now, since),
{
    if now >= since {
        now - since
    } else {
        0
    }
}

/// The snapshot determined by the evidence gathered so far.
pub open spec fn spec_snapshot(
    first_frame_seen: bool,
    started_at: u128,
    last_frame_at: Option<u128>,
    cfg: CaptureWatchdogConfig,
    now: u128,
) -> WatchdogSnapshot {
    WatchdogSnapshot {
        armed: first_frame_seen || spec_elapsed(now, started_at) <= cfg.arming_timeout,
        stalled: first_frame_seen && match last_frame_at {
            Some(at) => spec_elapsed(now, at) > cfg.stall_timeout,
            None => false,
        },
        first_frame_seen,
    }
}

/// Watchdog of a capture whose frames arrive through a callback.
#[derive(Debug, Clone, Copy, PartialEq, Eq, Structural)]
pub struct WatchdogState {
    pub first_frame_seen: bool,
    pub last_frame_at: Option<u128>,
    pub started_at: u128,
}

impl WatchdogState {
    /// The state with a frame noted at `now`.
    pub open spec fn marked(self, now: u128) -> WatchdogState {
        WatchdogState { first_frame_seen: true, last_frame_at: Some(now), ..self }
    }

    /// What a snapshot taken at `now` reports.
    pub open spec fn spec_snapshot(self, cfg: CaptureWatchdogConfig, now: u128) -> WatchdogSnapshot {
        spec_snapshot(self.first_frame_seen, self.started_at, self.last_frame_at, cfg, now)
    }

    /// Starts watching a capture begun at `now`.
    pub fn new(now: u128) -> (w: Self)
        ensures
            w == (WatchdogState { first_frame_seen: false, last_frame_at: None, started_at: now }),
    {
        WatchdogState { first_frame_seen: false, last_frame_at: None, started_at: now }
    }

    /// Notes that a non-empty buffer arrived at `now`.
    pub fn mark_frame(&mut self, now: u128)
        ensures
            *final(self) == old(self).marked(now),
            final(self).first_frame_seen,
    {
        self.first_frame_seen = true;
        self.last_frame_at = Some(now);
    }

    /// Takes in a buffer of `samples` samples delivered at `now`: only a non-empty buffer
    /// counts as a frame.
    pub fn mark_buffer(&mut self, samples: usize, now: u128)
        ensures
            *final(self) == (if samples > 0 {
                old(self).marked(now)
            } else {
                *old(self)
            }),
            old(self).first_frame_seen ==> final(self).first_frame_seen,
    {
        if samples > 0 {
            self.mark_frame(now);
        }
    }

    /// Reports whether the capture is armed or stalled at `now`.
    pub fn snapshot(&self, cfg: CaptureWatchdogConfig, now: u128) -> (s: WatchdogSnapshot)
        ensures
            s == self.spec_snapshot(cfg, now),
            s.consistent(),
            s.first_frame_seen == self.first_frame_seen,
    {
        let armed = self.first_frame_seen || elapsed(now, self.started_at) <= cfg.arming_timeout;
        let stalled = self.first_frame_seen && match self.last_frame_at {
            Some(at) => elapsed(now, at) > cfg.stall_timeout,
            None => false,
        };
        WatchdogSnapshot { armed, stalled, first_frame_seen: self.first_frame_seen }
    }
}

/// Reports on a callback-fed capture whose state may be unreadable: without the state the
/// snapshot fails safe.
pub fn snapshot_or_fail_safe(state: Option<&WatchdogState>, cfg: CaptureWatchdogConfig, now: u128) -> (s:
    WatchdogSnapshot)
    ensures
        s == (match state {
            Some(w) => w.spec_snapshot(cfg, now),
            None => WatchdogSnapshot::spec_fail_safe(),
        }),
{
    match state {
        Some(w) => w.snapshot(cfg, now),
        None => WatchdogSnapshot::fail_safe(),
    }
}

/// Size in bytes of a WAV header without any sample data.
pub const WAV_HEADER_LEN: u64 = 44;

/// Watchdog of a capture written by a child process: evidence is the growth of its file.
#[derive(Debug, Clone, Copy, PartialEq, Eq, Structural)]
pub struct FileWatchdog {
    pub first_frame_seen: bool,
    pub last_size: u64,
    pub last_growth_at: u128,
    pub started_at: u128,
}

impl FileWatchdog {
    /// The state after the file was seen with `size` bytes at `now`: data beyond the header
    /// latches the first frame, and growth since the last poll refreshes the frame time.
    pub open spec fn observed(self, size: u64, now: u128) -> FileWatchdog {
        if size > WAV_HEADER_LEN {
            FileWatchdog {
                first_frame_seen: true,
                last_size: if size > self.last_size {
                    size
                } else {
                    self.last_size
                },
                last_growth_at: if !self.first_frame_seen || size > self.last_size {
                    now
                } else {
                    self.last_growth_at
                },
                started_at: self.started_at,
            }
        } else {
            self
        }
    }

    /// What a snapshot taken at `now` reports, with no new observation.
    pub open spec fn spec_snapshot(self, cfg: CaptureWatchdogConfig, now: u128) -> WatchdogSnapshot {
        spec_snapshot(self.first_frame_seen, self.started_at, Some(self.last_growth_at), cfg, now)
    }

    /// Starts watching a recorder spawned at `now`.
    pub fn new(now: u128) -> (w: Self)
        ensures
            w == (FileWatchdog {
                first_frame_seen: false,
                last_size: 0,
                last_growth_at: now,
                started_at: now,
            }),
    {
        FileWatchdog { first_frame_seen: false, last_size: 0, last_growth_at: now, started_at: now }
    }

    /// Takes in the file's current `size` at `now` and reports on the capture.
    pub fn observe(&mut self, cfg: CaptureWatchdogConfig, size: u64, now: u128) -> (s: WatchdogSnapshot)
        ensures
            *final(self) == old(self).observed(size, now),
            s == final(self).spec_snapshot(cfg, now),
            s.consistent(),
            s.first_frame_seen == final(self).first_frame_seen,
            old(self).first_frame_seen ==> final(self).first_frame_seen,
    {
        if size > WAV_HEADER_LEN {
            if !self.first_frame_seen {
                self.first_frame_seen = true;
                self.last_growth_at = now;
            }
            if size > self.last_size {
                self.last_size = size;
                self.last_growth_at = now;
            }
        }
        let armed = self.first_frame_seen || elapsed(now, self.started_at) <= cfg.arming_timeout;
        let stalled = self.first_frame_seen && elapsed(now, self.last_growth_at) > cfg.stall_timeout;
        WatchdogSnapshot { armed, stalled, first_frame_seen: self.first_frame_seen }
    }
}

/// Every snapshot computed from gathered evidence is consistent: stalled implies a frame
/// was seen, and a seen frame implies armed.
pub proof fn lemma_snapshot_consistent(
    first_frame_seen: bool,
    started_at: u128,
    last_frame_at: Option<u128>,
    cfg: CaptureWatchdogConfig,
    now: u128,
)
    ensures
        spec_snapshot(first_frame_seen, started_at, last_frame_at, cfg, now).consistent(),
{
}

/// Once a frame was seen it stays seen: neither further frames nor further polls, in any
/// number and order, reset the latch.
pub proof fn lemma_first_frame_latched(w: WatchdogState, f: FileWatchdog, size: u64, now: u128)
    ensures
        w.marked(now).first_frame_seen,
        w.first_frame_seen ==> w.marked(now).first_frame_seen,
        f.first_frame_seen ==> f.observed(size, now).first_frame_seen,
        size > WAV_HEADER_LEN ==> f.observed(size, now).first_frame_seen,
{
}

/// The watchdog after a series of polls, each giving the file's size and the time.
pub open spec fn observed_all(f: FileWatchdog, polls: Seq<(u64, u128)>) -> FileWatchdog
    decreases polls.len(),
{
    if polls.len() == 0 {
        f
    } else {
        observed_all(f, polls.drop_last()).observed(polls.last().0, polls.last().1)
    }
}

/// Within one recording the latch never resets: if a frame was seen before a series of
/// polls, it is still seen after them, and every snapshot in between reports it.
pub proof fn lemma_first_frame_stays_seen(f: FileWatchdog, polls: Seq<(u64, u128)>, cfg: CaptureWatchdogConfig, now: u128)
    requires
        f.first_frame_seen,
    ensures
        observed_all(f, polls).first_frame_seen,
        observed_all(f, polls).spec_snapshot(cfg, now).first_frame_seen,
        observed_all(f, polls).spec_snapshot(cfg, now).armed,
    decreases polls.len(),
{
    if polls.len() > 0 {
        lemma_first_frame_stays_seen(f, polls.drop_last(), cfg, now);
    }
}

/// With no frame seen, a capture is armed exactly until the arming timeout has passed:
/// the first snapshot later than `started_at + arming_timeout` reports it unarmed.
pub proof fn lemma_arming_deadline(w: WatchdogState, f: FileWatchdog, cfg: CaptureWatchdogConfig, now: u128)
    ensures
        !w.first_frame_seen ==> (w.spec_snapshot(cfg, now).armed <==> spec_elapsed(now, w.started_at)
            <= cfg.arming_timeout),
        !f.first_frame_seen ==> (f.spec_snapshot(cfg, now).armed <==> spec_elapsed(now, f.started_at)
            <= cfg.arming_timeout),
        !w.first_frame_seen && now > w.started_at + cfg.arming_timeout ==> !w.spec_snapshot(cfg, now).armed,
        !f.first_frame_seen && now > f.started_at + cfg.arming_timeout ==> !f.spec_snapshot(cfg, now).armed,
{
}

/// Chooses recorders for new captures; remembers the device the user prefers.
#[derive(Debug, Clone)]
pub struct MicrophoneCapture {
    preferred_device: Option<String>,
}

impl MicrophoneCapture {
    /// The preferred device's name, if one is configured.
    pub closed spec fn spec_preferred_device(&self) -> Option<Seq<char>> {
        opt_view(self.preferred_device)
    }

    /// Creates a capture factory that prefers `preferred_device` when it is present.
    pub fn new(preferred_device: Option<String>) -> (m: Self)
        ensures
            m.spec_preferred_device() == opt_view(preferred_device),
    {
        MicrophoneCapture { preferred_device }
    }

    /// The preferred device's name, if one is configured.
    pub fn preferred_device(&self) -> (r: Option<String>)
        ensures
            opt_view(r) == self.spec_preferred_device(),
    {
        clone_opt_string(&self.preferred_device)
    }
}

} // verus!
