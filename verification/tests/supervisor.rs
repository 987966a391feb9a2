use antiafk::state::{AppState, RuntimeStatus};
use antiafk::supervisor::{adapter_for, finish_run, Adapter, Notice, WatchAction, WatchEvent, Watchdog};

fn is_nothing(a: &WatchAction) -> bool {
    matches!(a, WatchAction::Nothing)
}

#[test]
fn sober_seen_asks_for_preflight_when_auto_start_is_due() {
    let mut w = Watchdog::new();
    w.absent_ticks = 1;
    let mut s = AppState::default();
    s.auto_start = true;
    let a = w.step(&mut s, WatchEvent::SoberRunning);
    assert!(matches!(a, WatchAction::RunPreflight));
    assert_eq!(w.absent_ticks, 0);

    s.manually_stopped = true;
    let a = w.step(&mut s, WatchEvent::SoberRunning);
    assert!(is_nothing(&a));
    s.manually_stopped = false;
    s.running = true;
    assert!(is_nothing(&w.step(&mut s, WatchEvent::SoberRunning)));
}

#[test]
fn passing_preflight_starts_the_automation() {
    let mut w = Watchdog::new();
    let mut s = AppState::default();
    s.auto_start = true;
    match w.step(&mut s, WatchEvent::PreflightDone(Ok(()))) {
        WatchAction::Notify(n) => assert_eq!(n.text(), "Sober detected. Anti-AFK enabled."),
        _ => panic!("expected a notice"),
    }
    assert!(s.running);
    assert_eq!(s.runtime_status, RuntimeStatus::WaitingForSober);
}

#[test]
fn failing_preflight_records_the_error() {
    let mut w = Watchdog::new();
    let mut s = AppState::default();
    s.auto_start = true;
    match w.step(&mut s, WatchEvent::PreflightDone(Err("no grim".to_string()))) {
        WatchAction::Notify(n) => assert_eq!(n.text(), "Cannot auto-start: no grim"),
        _ => panic!("expected a notice"),
    }
    assert!(!s.running);
    assert!(s.manually_stopped);
    assert_eq!(s.runtime_status, RuntimeStatus::Error);
    assert_eq!(s.error_message.as_deref(), Some("no grim"));
}

#[test]
fn two_absent_checks_stop_the_automation() {
    let mut w = Watchdog::new();
    let mut s = AppState::default();
    s.running = true;
    s.auto_start = true;
    assert!(is_nothing(&w.step(&mut s, WatchEvent::SoberAbsent)));
    assert!(s.running);
    assert_eq!(w.absent_ticks, 1);
    match w.step(&mut s, WatchEvent::SoberAbsent) {
        WatchAction::Notify(n) => assert_eq!(n.text(), "Sober closed. Anti-AFK disabled."),
        _ => panic!("expected a notice"),
    }
    assert!(!s.running);
    assert!(!s.manually_stopped);
    assert_eq!(s.runtime_status, RuntimeStatus::WaitingForSober);
}

#[test]
fn absence_forgets_a_stop_by_hand() {
    let mut w = Watchdog::new();
    w.absent_ticks = 5;
    let mut s = AppState::default();
    s.manually_stopped = true;
    s.runtime_status = RuntimeStatus::Error;
    s.error_message = Some("old".to_string());
    assert!(is_nothing(&w.step(&mut s, WatchEvent::SoberAbsent)));
    assert!(!s.manually_stopped);
    assert_eq!(s.runtime_status, RuntimeStatus::Stopped);
    assert!(s.error_message.is_none());
    assert_eq!(w.absent_ticks, 6);
}

#[test]
fn absent_counter_saturates() {
    let mut w = Watchdog::new();
    w.absent_ticks = u64::MAX;
    let mut s = AppState::default();
    w.step(&mut s, WatchEvent::SoberAbsent);
    assert_eq!(w.absent_ticks, u64::MAX);
}

#[test]
fn adapters_by_mode() {
    assert_eq!(adapter_for(0), Ok(Adapter::Hyprland));
    assert_eq!(adapter_for(1), Ok(Adapter::Kde));
    assert_eq!(adapter_for(7), Err("This desktop is not supported yet.".to_string()));
}

#[test]
fn failed_run_stops_with_its_error() {
    let mut s = AppState::default();
    s.running = true;
    assert!(finish_run(&mut s, Ok(())).is_none());
    assert!(s.running);
    let n = finish_run(&mut s, Err("window lost".to_string())).unwrap();
    assert_eq!(n.text(), "Error: window lost");
    assert!(matches!(n, Notice::RunFailed(_)));
    assert!(!s.running);
    assert_eq!(s.runtime_status, RuntimeStatus::Error);
    assert_eq!(s.error_message.as_deref(), Some("window lost"));
}
