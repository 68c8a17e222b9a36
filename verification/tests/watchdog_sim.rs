use gheartbeat::heartbeat::{
    watchdog_exit_action, watchdog_should_continue, ExitAction, HealCheckMode,
};
use gheartbeat::state::HeartbeatState;

// The background loop, run against a simulated clock: evaluate the mode,
// re-check the hook flag, then sleep one interval.

#[test]
fn timer_loop_survives_regular_pings_then_dies_after_they_stop() {
    let mut state = HeartbeatState::new();
    let task = state.hook_legacy_timer_heartbeat(5, 1, 0).unwrap();
    let threshold = match task.mode {
        HealCheckMode::TimerLegacy { threshold } => threshold,
        _ => panic!("expected the timer mode"),
    };

    // A ping every 2 seconds for 20 seconds: no tick stops the loop.
    let mut now: u64 = 0;
    let mut last_ping: u64 = 0;
    while now <= 20 {
        if now % 2 == 0 {
            state.ping_alive(now).unwrap();
            last_ping = now;
        }
        let healthy = task.mode.is_health(now, state.timer, false);
        assert!(watchdog_should_continue(healthy, state.is_hooked));
        now += task.interval;
    }

    // The pings stop: the loop must exit, through the failure path, within
    // threshold + interval seconds of the last ping.
    let mut exited_at: Option<u64> = None;
    while now <= last_ping + threshold + task.interval + 5 {
        let healthy = task.mode.is_health(now, state.timer, false);
        if !watchdog_should_continue(healthy, state.is_hooked) {
            exited_at = Some(now);
            break;
        }
        now += task.interval;
    }
    let exit_time = exited_at.expect("the loop should have exited");
    assert!(exit_time <= last_ping + threshold + task.interval);
    assert!(matches!(watchdog_exit_action(state.is_hooked), ExitAction::Terminate));
}

#[test]
fn unhook_during_a_failing_check_exits_quietly() {
    let mut state = HeartbeatState::new();
    let task = state.hook_legacy_timer_heartbeat(5, 1, 0).unwrap();
    let threshold = match task.mode {
        HealCheckMode::TimerLegacy { threshold } => threshold,
        _ => panic!("expected the timer mode"),
    };
    // No pings arrive and the hook is dropped while the check fails: the
    // flag is sampled after the evaluation, so the exit is quiet.
    let now: u64 = 100;
    let timer = state.timer.unwrap();
    let healthy =
        HealCheckMode::check_timer_health(threshold, now, timer.last_timestamp, timer.paused);
    assert!(!healthy);
    state.uninstall();
    assert!(!watchdog_should_continue(healthy, state.is_hooked));
    assert!(matches!(watchdog_exit_action(state.is_hooked), ExitAction::Quiet));
}

#[test]
fn paused_timer_counts_as_unhealthy() {
    let mut state = HeartbeatState::new();
    let task = state.hook_legacy_timer_heartbeat(30, 1, 100).unwrap();
    let threshold = match task.mode {
        HealCheckMode::TimerLegacy { threshold } => threshold,
        _ => panic!("expected the timer mode"),
    };
    state.pause(true).unwrap();
    let timer = state.timer.unwrap();
    let healthy =
        HealCheckMode::check_timer_health(threshold, 101, timer.last_timestamp, timer.paused);
    assert!(!healthy);
    assert!(!watchdog_should_continue(healthy, state.is_hooked));
}
