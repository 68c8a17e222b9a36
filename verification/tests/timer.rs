use gheartbeat::heartbeat::HealCheckMode;
use gheartbeat::util::get_current_time;

#[test]
fn timer_healthy_within_threshold() {
    assert!(HealCheckMode::check_timer_health(30, 125, 100, false));
}

#[test]
fn timer_unhealthy_past_threshold() {
    assert!(!HealCheckMode::check_timer_health(30, 131, 100, false));
}

#[test]
fn timer_unhealthy_when_paused() {
    assert!(!HealCheckMode::check_timer_health(30, 125, 100, true));
}

#[test]
fn timer_healthy_at_exact_threshold() {
    assert!(HealCheckMode::check_timer_health(30, 130, 100, false));
}

#[test]
fn timer_healthy_with_zero_threshold_and_fresh_ping() {
    assert!(HealCheckMode::check_timer_health(0, 100, 100, false));
    assert!(!HealCheckMode::check_timer_health(0, 101, 100, false));
}

#[test]
fn timer_counts_future_ping_as_fresh() {
    // A clock adjustment can leave the last ping in the future; that is
    // not a missed ping.
    assert!(HealCheckMode::check_timer_health(30, 100, 200, false));
}

#[test]
fn clock_reads_a_plausible_epoch_time() {
    // Seconds since the Unix epoch: far past 2001 on any sane clock.
    assert!(get_current_time() > 1_000_000_000);
}
