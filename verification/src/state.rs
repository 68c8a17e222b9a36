use crate::errors::ResultError;
use crate::heartbeat::{HealCheckMode, A2S_CHECK_INTERVAL_SECS, RCON_CHECK_INTERVAL_SECS};
use crate::rcon::MAX_CREDENTIAL_LEN;
use vstd::prelude::*;

verus! {

/// The timer mode's shared liveness values: the timestamp of the last
/// external ping and the pause flag.
#[derive(Clone, Copy, Debug, PartialEq, Eq, Structural)]
pub struct TimerState {
    pub last_timestamp: u64,
    pub paused: bool,
}

/// What a hook hands the background loop: the mode to evaluate and the
/// seconds to sleep between two evaluations.
#[derive(Debug)]
pub struct WatchdogTask {
    pub interval: u64,
    pub mode: HealCheckMode,
}

/// The process-wide watchdog state: whether a hook is installed, whether
/// debug output is on, and — once the timer mode was installed — its
/// shared liveness values. The liveness values are created at most once
/// for the process lifetime; a second installation is refused, never
/// silently overwritten.
#[derive(Debug)]
pub struct HeartbeatState {
    pub is_hooked: bool,
    pub debug_mode: bool,
    pub timer: Option<TimerState>,
}

/// How `ping_alive` moves the state: with liveness values present, the
/// ping is recorded and the pause flag cleared; without them, nothing
/// changes.
pub open spec fn ping_recorded(pre: HeartbeatState, post: HeartbeatState, now: u64) -> bool {
    match pre.timer {
        Some(_) => {
            &&& post.is_hooked == pre.is_hooked
            &&& post.debug_mode == pre.debug_mode
            &&& post.timer == Some(TimerState { last_timestamp: now, paused: false })
        },
        None => post == pre,
    }
}

/// How `pause` moves the state: with liveness values present, the pause
/// flag becomes `flag` and the last ping stays; without them, nothing
/// changes.
pub open spec fn pause_set(pre: HeartbeatState, post: HeartbeatState, flag: bool) -> bool {
    match pre.timer {
        Some(t) => {
            &&& post.is_hooked == pre.is_hooked
            &&& post.debug_mode == pre.debug_mode
            &&& post.timer == Some(TimerState { last_timestamp: t.last_timestamp, paused: flag })
        },
        None => post == pre,
    }
}

/// How `uninstall` moves the state: the hook flag is cleared and nothing
/// else is touched; the liveness values survive for the loop still
/// holding them.
pub open spec fn unhooked(pre: HeartbeatState, post: HeartbeatState) -> bool {
    &&& !post.is_hooked
    &&& post.debug_mode == pre.debug_mode
    &&& post.timer == pre.timer
}

impl HeartbeatState {
    /// The state a process starts with: nothing hooked, debug off, no
    /// liveness values.
    pub fn new() -> (r: Self)
        ensures
            !r.is_hooked,
            !r.debug_mode,
            r.timer is None,
    {
        HeartbeatState { is_hooked: false, debug_mode: false, timer: None }
    }

    /// An external liveness signal: record the ping at `now` and clear
    /// the pause flag. Only the timer mode keeps liveness values, so any
    /// other (or no) installed mode answers `ModeMismatch` and changes
    /// nothing.
    pub fn ping_alive(&mut self, now: u64) -> (r: Result<(), ResultError>)
        ensures
            ping_recorded(*old(self), *final(self), now),
            (r is Ok) <==> old(self).timer is Some,
            old(self).timer is None ==> r == Err::<(), ResultError>(ResultError::ModeMismatch),
    {
        match self.timer {
            Some(_) => {
                self.timer = Some(TimerState { last_timestamp: now, paused: false });
                Ok(())
            },
            None => Err(ResultError::ModeMismatch),
        }
    }

    /// Set the pause flag. As with `ping_alive`, only the timer mode has
    /// one; otherwise `ModeMismatch`, and nothing changes.
    pub fn pause(&mut self, flag: bool) -> (r: Result<(), ResultError>)
        ensures
            pause_set(*old(self), *final(self), flag),
            (r is Ok) <==> old(self).timer is Some,
            old(self).timer is None ==> r == Err::<(), ResultError>(ResultError::ModeMismatch),
    {
        match self.timer {
            Some(t) => {
                self.timer = Some(TimerState { last_timestamp: t.last_timestamp, paused: flag });
                Ok(())
            },
            None => Err(ResultError::ModeMismatch),
        }
    }

    /// Toggle debug output.
    pub fn set_debug(&mut self, flag: bool)
        ensures
            final(self).debug_mode == flag,
            final(self).is_hooked == old(self).is_hooked,
            final(self).timer == old(self).timer,
    {
        self.debug_mode = flag;
    }

    /// Drop the hook: the running loop sees the cleared flag on its next
    /// wake and exits quietly. Safe to call at any time, any number of
    /// times.
    pub fn uninstall(&mut self)
        ensures
            unhooked(*old(self), *final(self)),
    {
        self.is_hooked = false;
    }

    /// Install the timer mode: refuse if a hook is already installed or
    /// if the one-time liveness values already exist; otherwise create
    /// them with the ping recorded at `now`, raise the hook flag, and
    /// hand back the loop's task.
    pub fn hook_legacy_timer_heartbeat(&mut self, threshold: u64, interval: u64, now: u64) -> (r:
        Result<WatchdogTask, ResultError>)
        ensures
            old(self).is_hooked ==> r == Err::<WatchdogTask, ResultError>(
                ResultError::HookAlreadyExists,
            ) && *final(self) == *old(self),
            !old(self).is_hooked && old(self).timer is Some ==> r == Err::<
                WatchdogTask,
                ResultError,
            >(ResultError::StateAlreadyInitialized) && *final(self) == *old(self),
            !old(self).is_hooked && old(self).timer is None ==> {
                &&& r matches Ok(task)
                &&& task.interval == interval
                &&& task.mode == (HealCheckMode::TimerLegacy { threshold })
                &&& final(self).is_hooked
                &&& final(self).debug_mode == old(self).debug_mode
                &&& final(self).timer == Some(
                    TimerState { last_timestamp: now, paused: false },
                )
            },
    {
        if self.is_hooked {
            return Err(ResultError::HookAlreadyExists);
        }
        match self.timer {
            Some(_) => Err(ResultError::StateAlreadyInitialized),
            None => {
                self.timer = Some(TimerState { last_timestamp: now, paused: false });
                self.is_hooked = true;
                Ok(WatchdogTask { interval, mode: HealCheckMode::TimerLegacy { threshold } })
            },
        }
    }

    /// Install the query-probe mode: refuse if a hook is already
    /// installed; otherwise raise the hook flag and hand back the loop's
    /// task with the probe's fixed interval.
    pub fn hook_a2s_heartbeat(&mut self, retry_count: u8, port: u16) -> (r: Result<
        WatchdogTask,
        ResultError,
    >)
        ensures
            old(self).is_hooked ==> r == Err::<WatchdogTask, ResultError>(
                ResultError::HookAlreadyExists,
            ) && *final(self) == *old(self),
            !old(self).is_hooked ==> {
                &&& r matches Ok(task)
                &&& task.interval == A2S_CHECK_INTERVAL_SECS
                &&& task.mode == (HealCheckMode::A2S { retry_count, port })
                &&& final(self).is_hooked
                &&& final(self).debug_mode == old(self).debug_mode
                &&& final(self).timer == old(self).timer
            },
    {
        if self.is_hooked {
            return Err(ResultError::HookAlreadyExists);
        }
        self.is_hooked = true;
        Ok(WatchdogTask { interval: A2S_CHECK_INTERVAL_SECS, mode: HealCheckMode::A2S { retry_count, port } })
    }

    /// Install the remote-console mode: refuse if a hook is already
    /// installed, and refuse an empty credential before any network
    /// activity; otherwise raise the hook flag and hand back the loop's
    /// task with the probe's fixed interval.
    pub fn hook_rcon_heartbeat(&mut self, retry_count: u8, port: u16, password: Vec<u8>) -> (r:
        Result<WatchdogTask, ResultError>)
        requires
            password@.len() <= MAX_CREDENTIAL_LEN,
        ensures
            old(self).is_hooked ==> r == Err::<WatchdogTask, ResultError>(
                ResultError::HookAlreadyExists,
            ) && *final(self) == *old(self),
            !old(self).is_hooked && password@.len() == 0 ==> r == Err::<
                WatchdogTask,
                ResultError,
            >(ResultError::InvalidCredential) && *final(self) == *old(self),
            !old(self).is_hooked && password@.len() > 0 ==> {
                &&& r matches Ok(task)
                &&& task.interval == RCON_CHECK_INTERVAL_SECS
                &&& task.mode == (HealCheckMode::RCON { retry_count, port, password })
                &&& final(self).is_hooked
                &&& final(self).debug_mode == old(self).debug_mode
                &&& final(self).timer == old(self).timer
            },
    {
        if self.is_hooked {
            return Err(ResultError::HookAlreadyExists);
        }
        if password.len() == 0 {
            return Err(ResultError::InvalidCredential);
        }
        self.is_hooked = true;
        Ok(WatchdogTask {
            interval: RCON_CHECK_INTERVAL_SECS,
            mode: HealCheckMode::RCON { retry_count, port, password },
        })
    }
}

/// Setting the pause flag twice with the same value: the second call
/// changes nothing further, and with liveness values present the flag
/// holds afterwards.
pub proof fn lemma_pause_idempotent(
    s0: HeartbeatState,
    s1: HeartbeatState,
    s2: HeartbeatState,
    flag: bool,
)
    requires
        pause_set(s0, s1, flag),
        pause_set(s1, s2, flag),
    ensures
        s2 == s1,
        s0.timer is Some ==> (s1.timer matches Some(t) && t.paused == flag),
{
}

/// Uninstalling twice is safe: the second call changes nothing further,
/// and the hook flag stays cleared.
pub proof fn lemma_uninstall_idempotent(s0: HeartbeatState, s1: HeartbeatState, s2: HeartbeatState)
    requires
        unhooked(s0, s1),
        unhooked(s1, s2),
    ensures
        s2 == s1,
        !s2.is_hooked,
{
}

} // verus!
