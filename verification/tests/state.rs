use gheartbeat::errors::ResultError;
use gheartbeat::heartbeat::HealCheckMode;
use gheartbeat::state::HeartbeatState;

#[test]
fn second_hook_is_refused_and_first_keeps_working() {
    let mut state = HeartbeatState::new();
    let task = state.hook_legacy_timer_heartbeat(30, 1, 100).unwrap();
    assert!(matches!(task.mode, HealCheckMode::TimerLegacy { threshold: 30 }));
    assert_eq!(task.interval, 1);
    assert!(state.is_hooked);

    let second = state.hook_a2s_heartbeat(3, 27015);
    assert!(matches!(second, Err(ResultError::HookAlreadyExists)));
    let third = state.hook_rcon_heartbeat(3, 27015, b"secret".to_vec());
    assert!(matches!(third, Err(ResultError::HookAlreadyExists)));

    // The installed timer mode still behaves as before.
    assert!(state.is_hooked);
    assert!(state.ping_alive(120).is_ok());
    let timer = state.timer.unwrap();
    assert_eq!(timer.last_timestamp, 120);
    assert!(!timer.paused);
}

#[test]
fn ping_against_query_probe_mode_is_a_mode_mismatch() {
    let mut state = HeartbeatState::new();
    let task = state.hook_a2s_heartbeat(3, 27015).unwrap();
    assert!(matches!(task.mode, HealCheckMode::A2S { retry_count: 3, port: 27015 }));
    assert_eq!(task.interval, 10);

    let ping = state.ping_alive(50);
    assert!(matches!(ping, Err(ResultError::ModeMismatch)));
    // No timer state was created or mutated.
    assert!(state.timer.is_none());

    let paused = state.pause(true);
    assert!(matches!(paused, Err(ResultError::ModeMismatch)));
    assert!(state.timer.is_none());
}

#[test]
fn ping_without_any_hook_is_a_mode_mismatch() {
    let mut state = HeartbeatState::new();
    assert!(matches!(state.ping_alive(1), Err(ResultError::ModeMismatch)));
    assert!(matches!(state.pause(false), Err(ResultError::ModeMismatch)));
}

#[test]
fn pausing_twice_leaves_paused_set() {
    let mut state = HeartbeatState::new();
    state.hook_legacy_timer_heartbeat(30, 1, 100).unwrap();
    assert!(state.pause(true).is_ok());
    assert!(state.pause(true).is_ok());
    assert!(state.timer.unwrap().paused);
    // The last ping survives the pause toggles.
    assert_eq!(state.timer.unwrap().last_timestamp, 100);
}

#[test]
fn uninstalling_twice_is_safe() {
    let mut state = HeartbeatState::new();
    state.hook_a2s_heartbeat(2, 27015).unwrap();
    state.uninstall();
    state.uninstall();
    assert!(!state.is_hooked);
}

#[test]
fn ping_clears_the_pause_flag() {
    let mut state = HeartbeatState::new();
    state.hook_legacy_timer_heartbeat(30, 1, 100).unwrap();
    state.pause(true).unwrap();
    assert!(state.timer.unwrap().paused);
    state.ping_alive(140).unwrap();
    let timer = state.timer.unwrap();
    assert!(!timer.paused);
    assert_eq!(timer.last_timestamp, 140);
}

#[test]
fn empty_rcon_credential_is_refused_before_any_network_activity() {
    let mut state = HeartbeatState::new();
    let hook = state.hook_rcon_heartbeat(3, 27015, Vec::new());
    assert!(matches!(hook, Err(ResultError::InvalidCredential)));
    assert!(!state.is_hooked);
}

#[test]
fn rcon_hook_carries_the_credential_through() {
    let mut state = HeartbeatState::new();
    let task = state.hook_rcon_heartbeat(4, 27016, b"secret".to_vec()).unwrap();
    assert_eq!(task.interval, 15);
    match task.mode {
        HealCheckMode::RCON { retry_count, port, password } => {
            assert_eq!(retry_count, 4);
            assert_eq!(port, 27016);
            assert_eq!(password, b"secret".to_vec());
        }
        _ => panic!("expected the remote-console mode"),
    }
}

#[test]
fn timer_state_is_initialized_at_most_once() {
    let mut state = HeartbeatState::new();
    state.hook_legacy_timer_heartbeat(30, 1, 100).unwrap();
    state.uninstall();
    // The one-time liveness values still exist: a second timer install is
    // refused rather than silently overwriting them.
    let again = state.hook_legacy_timer_heartbeat(30, 1, 200);
    assert!(matches!(again, Err(ResultError::StateAlreadyInitialized)));
}
