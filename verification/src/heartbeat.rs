use crate::state::TimerState;
use vstd::prelude::*;

verus! {

/// Milliseconds slept between failed query-probe attempts.
pub const A2S_BACKOFF_MILLIS: u64 = 100;
/// Milliseconds slept between failed remote-console attempts.
pub const RCON_BACKOFF_MILLIS: u64 = 200;
/// Seconds between two watchdog ticks of the query-probe mode.
pub const A2S_CHECK_INTERVAL_SECS: u64 = 10;
/// Seconds between two watchdog ticks of the remote-console mode.
pub const RCON_CHECK_INTERVAL_SECS: u64 = 15;
/// Read and write timeout, in seconds, of a remote-console connection.
pub const RCON_IO_TIMEOUT_SECS: u64 = 5;

/// The closed set of health-check strategies. A mode is immutable once
/// installed; only the timer mode's shared liveness state (held in
/// `state::HeartbeatState`) mutates afterwards.
#[derive(Debug)]
pub enum HealCheckMode {
    /// Liveness inferred from external pings: healthy while the last ping
    /// is within `threshold` seconds and the state is not paused.
    TimerLegacy { threshold: u64 },
    /// Liveness inferred from a query-protocol probe of `loopback:port`,
    /// tried up to `retry_count` times.
    A2S { retry_count: u8, port: u16 },
    /// Liveness inferred from an authenticated remote-console handshake
    /// with `loopback:port`, tried up to `retry_count` times.
    RCON { retry_count: u8, port: u16, password: Vec<u8> },
}

/// What the timer evaluation answers: the last ping lies within the
/// threshold and the state is not paused.
pub open spec fn timer_healthy(threshold: u64, now: u64, last: u64, paused: bool) -> bool {
    now - last <= threshold && !paused
}

/// Whether the watchdog loop runs another tick: only while the mode is
/// healthy and the hook is still installed.
pub open spec fn loop_continues(healthy: bool, hooked: bool) -> bool {
    healthy && hooked
}

/// What the watchdog does once its loop has stopped.
#[derive(Clone, Copy, Debug, PartialEq, Eq, Structural)]
pub enum ExitAction {
    /// The hook was still installed, so the stop means a failed health
    /// check: terminate the host process.
    Terminate,
    /// The hook was removed: leave quietly.
    Quiet,
}

/// How the loop's stop is resolved: a termination exactly when the hook
/// was still installed at the re-check.
pub open spec fn exit_action_of(hooked: bool) -> ExitAction {
    if hooked {
        ExitAction::Terminate
    } else {
        ExitAction::Quiet
    }
}

impl HealCheckMode {
    /// The timer mode's evaluation: healthy exactly when the last ping is
    /// at most `threshold` seconds old and the state is not paused. A last
    /// ping that lies in the future (a clock adjustment) counts as fresh.
    pub fn check_timer_health(threshold: u64, now: u64, last_timestamp: u64, paused: bool) -> (r: bool)
        ensures
            r == timer_healthy(threshold, now, last_timestamp, paused),
    {
        let within_threshold: bool = last_timestamp > now || now - last_timestamp <= threshold;
        within_threshold && !paused
    }

    /// The evaluation contract of a mode, over the values the embedding
    /// layer gathered for it: the clock and the shared liveness values
    /// for the timer mode, and the probe run's outcome for the two probe
    /// modes — whatever that run observed on the network.
    pub fn is_health(&self, now: u64, timer: Option<TimerState>, probe_outcome: bool) -> (r: bool)
        ensures
            self matches HealCheckMode::TimerLegacy { threshold } ==> r == (timer matches Some(t)
                && timer_healthy(*threshold, now, t.last_timestamp, t.paused)),
            self is A2S || self is RCON ==> r == probe_outcome,
    {
        match self {
            HealCheckMode::TimerLegacy { threshold } => match timer {
                Some(t) => Self::check_timer_health(*threshold, now, t.last_timestamp, t.paused),
                None => false,
            },
            HealCheckMode::A2S { .. } => probe_outcome,
            HealCheckMode::RCON { .. } => probe_outcome,
        }
    }
}

/// One tick of the watchdog loop: keep running only while the health
/// evaluation succeeded and the hook is still installed.
pub fn watchdog_should_continue(healthy: bool, hooked: bool) -> (r: bool)
    ensures
        r == loop_continues(healthy, hooked),
{
    healthy && hooked
}

/// The decision once the loop has stopped. The hook flag is sampled again
/// after the failing evaluation, so an unhook that races with a failing
/// check resolves to a quiet exit rather than a termination.
pub fn watchdog_exit_action(hooked: bool) -> (r: ExitAction)
    ensures
        r == exit_action_of(hooked),
        (r is Terminate) <==> hooked,
{
    if hooked {
        ExitAction::Terminate
    } else {
        ExitAction::Quiet
    }
}

/// The bounded-retry schedule shared by the two probe modes: a probe run
/// makes at most `retry_count` attempts and gives up after the last one.
pub struct ProbeRetry {
    pub retry_count: u8,
    pub attempts_made: u8,
}

impl ProbeRetry {
    /// The count of attempts made never passes the configured bound.
    pub open spec fn wf(self) -> bool {
        self.attempts_made <= self.retry_count
    }

    /// A fresh schedule that allows up to `retry_count` attempts.
    pub fn new(retry_count: u8) -> (r: Self)
        ensures
            r.retry_count == retry_count,
            r.attempts_made == 0,
            r.wf(),
    {
        ProbeRetry { retry_count, attempts_made: 0 }
    }

    /// Whether another probe attempt may be made.
    pub fn has_attempts_left(&self) -> (r: bool)
        ensures
            r == (self.attempts_made < self.retry_count),
    {
        self.attempts_made < self.retry_count
    }

    /// Record one failed attempt. The result says whether to back off and
    /// retry (`true`) or to give up and report unhealthy (`false`).
    pub fn on_failure(&mut self) -> (retry: bool)
        requires
            old(self).wf(),
            old(self).attempts_made < old(self).retry_count,
        ensures
            final(self).retry_count == old(self).retry_count,
            final(self).attempts_made == old(self).attempts_made + 1,
            final(self).wf(),
            retry == (final(self).attempts_made < final(self).retry_count),
    {
        self.attempts_made = self.attempts_made + 1;
        self.attempts_made < self.retry_count
    }
}

/// While the host keeps pinging within the threshold and nothing pauses or
/// unhooks the watchdog, a timer-mode tick never stops the loop.
pub proof fn lemma_fresh_ping_keeps_running(threshold: u64, now: u64, last: u64)
    requires
        now - last <= threshold,
    ensures
        loop_continues(timer_healthy(threshold, now, last, false), true),
{
}

/// Once the last ping is older than the threshold, the timer evaluation
/// fails whatever the pause flag holds, the loop stops, and — the hook
/// still being installed — the exit turns into a termination.
pub proof fn lemma_missed_ping_terminates(threshold: u64, now: u64, last: u64, paused: bool)
    requires
        now - last > threshold,
    ensures
        !timer_healthy(threshold, now, last, paused),
        !loop_continues(timer_healthy(threshold, now, last, paused), true),
        exit_action_of(true) is Terminate,
{
}

/// Ticks come every `interval` seconds. If the tick at `prev` still found
/// the last report within the threshold and no report follows, the next
/// tick at `prev + interval` is the first to fail, and it comes no later
/// than `threshold + interval` seconds after the last report.
pub proof fn lemma_failure_detected_within_bound(
    threshold: u64,
    interval: u64,
    last: u64,
    prev: u64,
    next: u64,
    paused: bool,
)
    requires
        prev - last <= threshold,
        next == prev + interval,
        next - last > threshold,
    ensures
        !timer_healthy(threshold, next, last, paused),
        next <= last + threshold + interval,
{
}

} // verus!
