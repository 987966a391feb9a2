use antiafk::state::{
    set_runtime_error, set_runtime_status, AppState, DesktopEnv, RuntimeStatus,
};
use std::sync::{Arc, Mutex};

fn env(hypr: bool, desktop: Option<&str>, kde_full: bool) -> DesktopEnv {
    DesktopEnv {
        hyprland_instance_signature: hypr,
        xdg_current_desktop: desktop.map(|d| d.to_string()),
        kde_full_session: kde_full,
        wayland_display: true,
        xdg_session_type: None,
    }
}

#[test]
fn non_error_status_clears_previous_error() {
    let state = Arc::new(Mutex::new(AppState::default()));
    set_runtime_error(&mut state.lock().unwrap(), "preflight failed");
    set_runtime_status(&mut state.lock().unwrap(), RuntimeStatus::WaitingForSober);

    let state = state.lock().unwrap();
    assert_eq!(state.runtime_status, RuntimeStatus::WaitingForSober);
    assert!(state.error_message.is_none());
}

#[test]
fn default_state_matches_first_start() {
    let s = AppState::default();
    assert!(!s.running);
    assert!(s.jump && !s.walk && !s.spin_jiggle);
    assert_eq!(s.interval_seq, 240);
    assert_eq!(s.mode, 0);
    assert_eq!(s.fps_limit, 30);
    assert!(!s.stealth && !s.auto_start && !s.fps_capper);
    assert_eq!(s.last_run_version, None);
    assert_eq!(s.runtime_status, RuntimeStatus::Stopped);
    assert_eq!(RuntimeStatus::default(), RuntimeStatus::Stopped);
    assert!(s.error_message.is_none());
}

#[test]
fn runtime_error_stops_the_automation() {
    let mut s = AppState::default();
    s.running = true;
    s.action_active = true;
    s.interval_seq = 540;
    set_runtime_error(&mut s, "no uinput");
    assert!(!s.running);
    assert!(!s.action_active);
    assert!(s.manually_stopped);
    assert_eq!(s.runtime_status, RuntimeStatus::Error);
    assert_eq!(s.error_message.as_deref(), Some("no uinput"));
    assert_eq!(s.interval_seq, 540);
}

#[test]
fn error_status_keeps_the_message() {
    let mut s = AppState::default();
    set_runtime_error(&mut s, "broken");
    set_runtime_status(&mut s, RuntimeStatus::Error);
    assert_eq!(s.error_message.as_deref(), Some("broken"));
    set_runtime_status(&mut s, RuntimeStatus::Paused);
    assert_eq!(s.runtime_status, RuntimeStatus::Paused);
    assert!(s.error_message.is_none());
}

#[test]
fn desktop_detection() {
    assert!(AppState::is_hyprland(&env(true, None, false)));
    assert!(!AppState::is_hyprland(&env(false, Some("Hyprland"), false)));
    assert!(AppState::is_kde(&env(false, Some("KDE"), false)));
    // only the uppercase form is searched, so lower case names match too
    assert!(AppState::is_kde(&env(false, Some("plasma:kde"), false)));
    assert!(AppState::is_kde(&env(false, Some("plasma"), false)));
    assert!(!AppState::is_kde(&env(false, Some("GNOME"), false)));
    assert!(AppState::is_kde(&env(false, None, true)));
    assert!(!AppState::is_kde(&env(false, None, false)));
    assert_eq!(AppState::detect_de_mode(&env(true, Some("KDE"), true)), 0);
    assert_eq!(AppState::detect_de_mode(&env(false, Some("KDE"), false)), 1);
    assert_eq!(AppState::detect_de_mode(&env(false, Some("sway"), false)), 2);
    assert!(antiafk::backend::is_kde(&env(false, Some("kde"), false)));
    assert!(antiafk::backend::is_hyprland(&env(true, None, false)));
}

#[test]
fn loading_never_starts_running() {
    let mut stored = AppState::default();
    stored.running = true;
    stored.walk = true;
    stored.mode = 1;
    stored.last_run_version = Some("0.1.0".to_string());
    let s = AppState::from_stored(Some(stored), &env(true, None, false));
    assert!(!s.running);
    assert!(s.walk);
    assert_eq!(s.mode, 0);
    assert_eq!(s.last_run_version.as_deref(), Some("0.1.0"));

    let d = AppState::from_stored(None, &env(false, Some("KDE"), false));
    assert!(!d.running);
    assert_eq!(d.mode, 1);
    assert_eq!(d.interval_seq, 240);
}

#[test]
fn saved_state_is_not_running() {
    let mut s = AppState::default();
    s.running = true;
    s.fps_limit = 45;
    s.error_message = Some("x".to_string());
    let saved = s.save_snapshot();
    assert!(!saved.running);
    assert_eq!(saved.fps_limit, 45);
    assert_eq!(saved.error_message.as_deref(), Some("x"));
    assert!(s.running);
}
