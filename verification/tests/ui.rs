use antiafk::backend::{preflight, HostProbe, Probe};
use antiafk::state::{AppState, DesktopEnv, RuntimeStatus};
use antiafk::ui::{
    acknowledge_warning, action_index, apply_switches, start_up, controls_enabled, current_version, diagnostic_checks,
    environment_label, error_banner, icon_for, initial_option, interval_choice, item_look,
    leave_diagnostics, record_preflight, select_action, select_interval, start_automation,
    status_badge, stop_automation, theme_query, theme_step, toggle_intent, toggle_look,
    diagnostic_next_probe, ThemeStep,
    version_check_result, version_display, version_label, ItemStatus, SwitchValues, ToggleIntent,
    UinputFix,
};

#[test]
fn interval_menu() {
    assert_eq!(interval_choice(240), (0, "4 min"));
    assert_eq!(interval_choice(360), (1, "6 min"));
    assert_eq!(interval_choice(540), (2, "9 min"));
    assert_eq!(interval_choice(1140), (3, "19 min"));
    assert_eq!(interval_choice(600), (4, "Custom"));
    let mut s = AppState::default();
    assert!(!select_interval(&mut s, 2));
    assert_eq!(s.interval_seq, 540);
    assert_eq!(interval_choice(s.interval_seq).0, 2);
    assert!(select_interval(&mut s, 4));
    assert_eq!(s.interval_seq, 540);
}

#[test]
fn action_menu() {
    let mut s = AppState::default();
    assert_eq!(action_index(&s), 0);
    for i in 0..3 {
        select_action(&mut s, i);
        assert_eq!(action_index(&s), i);
    }
    select_action(&mut s, 1);
    assert!(!s.jump && s.walk && !s.spin_jiggle);
    s.spin_jiggle = true;
    assert_eq!(action_index(&s), 1);
}

#[test]
fn switches_update_settings() {
    let mut s = AppState::default();
    s.manually_stopped = true;
    let v = SwitchValues {
        auto_start: true,
        multi_instance: true,
        stealth: true,
        user_safe: false,
        auto_reconnect: true,
        fps_capper: true,
        fps_limit: 45,
        stop_limit_on_focus: true,
    };
    apply_switches(&mut s, &v);
    assert!(!s.manually_stopped);
    assert!(s.auto_start && s.multi_instance && s.stealth && s.auto_reconnect);
    assert_eq!(s.fps_limit, 45);
    s.manually_stopped = true;
    apply_switches(&mut s, &v);
    assert!(s.manually_stopped);
}

#[test]
fn main_button_and_badge() {
    assert_eq!(toggle_look(true, true), ("Back to Settings", "back-button"));
    assert_eq!(toggle_look(false, true), ("Stop Anti-AFK", "stop-button"));
    assert_eq!(toggle_look(false, false), ("Start Anti-AFK", "start-button"));
    assert_eq!(status_badge(RuntimeStatus::Paused, false), ("Paused - mouse activity", "paused", true));
    assert_eq!(status_badge(RuntimeStatus::Ready, false), ("Anti-AFK is on", "active", false));
    assert_eq!(status_badge(RuntimeStatus::Error, true), ("", "", false));
    assert!(controls_enabled(false, false));
    assert!(!controls_enabled(true, false));
    assert!(!controls_enabled(false, true));
}

#[test]
fn error_banner_text() {
    let mut s = AppState::default();
    assert_eq!(error_banner(&s, false), None);
    s.runtime_status = RuntimeStatus::Error;
    assert_eq!(error_banner(&s, false), Some("Unknown error".to_string()));
    s.error_message = Some("bad".to_string());
    assert_eq!(error_banner(&s, false), Some("bad".to_string()));
    assert_eq!(error_banner(&s, true), None);
}

#[test]
fn toggling_by_hand() {
    assert_eq!(toggle_intent(true, false), ToggleIntent::LeaveDiagnostics);
    assert_eq!(toggle_intent(false, true), ToggleIntent::Stop);
    assert_eq!(toggle_intent(false, false), ToggleIntent::Start);
    let mut s = AppState::default();
    start_automation(&mut s, Ok(()));
    assert!(s.running && !s.manually_stopped);
    assert_eq!(s.runtime_status, RuntimeStatus::WaitingForSober);
    stop_automation(&mut s);
    assert!(!s.running && s.manually_stopped);
    assert_eq!(s.runtime_status, RuntimeStatus::Stopped);
    start_automation(&mut s, Err("nope".to_string()));
    assert_eq!(s.runtime_status, RuntimeStatus::Error);
    assert_eq!(s.error_message.as_deref(), Some("nope"));
    leave_diagnostics(&mut s, Ok(()));
    assert_eq!(s.runtime_status, RuntimeStatus::Stopped);
    assert!(s.error_message.is_none());
    leave_diagnostics(&mut s, Err("again".to_string()));
    assert_eq!(s.error_message.as_deref(), Some("again"));
    let mut t = AppState::default();
    record_preflight(&mut t, Ok(()));
    assert_eq!(t.runtime_status, RuntimeStatus::Stopped);
    record_preflight(&mut t, Err("setup".to_string()));
    assert_eq!(t.runtime_status, RuntimeStatus::Error);
}

#[test]
fn diagnostics_page() {
    assert_eq!(environment_label(0), ("Hyprland", true));
    assert_eq!(environment_label(1), ("KDE Plasma 6", true));
    assert_eq!(environment_label(2), ("Unsupported", false));
    let p = HostProbe {
        hyprctl: Some(true),
        grim: Some(false),
        qdbus6: Some(false),
        qdbus: Some(true),
        journalctl: Some(false),
        spectacle: Some(true),
        uinput: Some(false),
    };
    let hypr = diagnostic_checks(true, false, true, &p, false);
    let titles: Vec<&str> = hypr.iter().map(|c| c.title).collect();
    assert_eq!(titles, vec!["uinput Permissions", "hyprctl Utility", "grim Tool"]);
    assert!(!hypr[0].ok);
    assert_eq!(hypr[0].fix, Some(UinputFix::InstallRule));
    assert!(!hypr[2].ok);
    let kde = diagnostic_checks(false, true, false, &p, true);
    let titles: Vec<&str> = kde.iter().map(|c| c.title).collect();
    assert_eq!(titles, vec!["uinput Permissions", "qdbus Utility", "journalctl Utility"]);
    assert_eq!(kde[0].fix, Some(UinputFix::RemoveRule));
    assert!(kde[1].ok);
    assert!(!kde[2].ok);
    assert!(diagnostic_checks(false, false, true, &p, true).is_empty());
    assert_eq!(item_look(ItemStatus::Passed), ("check", "Ready", "diagnostic-ok"));
    assert_eq!(item_look(ItemStatus::Failed), ("warning", "Error", "diagnostic-error"));
}

#[test]
fn icons_and_selects() {
    assert_eq!(icon_for("cpu"), "cpu");
    assert_eq!(icon_for("chevron-down"), "chevron-down");
    assert_eq!(icon_for("nope"), "warning");
    assert_eq!(initial_option(2, 3), 2);
    assert_eq!(initial_option(5, 3), 0);
}

#[test]
fn dark_theme_detection() {
    let dark = Some("Adwaita:DARK".to_string());
    assert_eq!(theme_step(&dark, &vec![]), ThemeStep::Dark);
    let light = Some("Adwaita".to_string());
    assert_eq!(theme_step(&light, &vec![]), ThemeStep::Query(0));
    assert_eq!(theme_step(&None, &vec![Some("'default'\n".to_string())]), ThemeStep::Query(1));
    assert_eq!(
        theme_step(&None, &vec![None, Some("'Prefer-Dark'\n".to_string())]),
        ThemeStep::Dark
    );
    assert_eq!(theme_step(&None, &vec![None, None, Some(" TRUE \n".to_string())]), ThemeStep::Dark);
    assert_eq!(
        theme_step(&None, &vec![Some("false\n".to_string()), None, Some("'default'".to_string())]),
        ThemeStep::Light
    );
    assert_eq!(theme_query(0), ("org.gnome.desktop.interface", "color-scheme"));
    assert_eq!(theme_query(1), ("org.gnome.desktop.interface", "gtk-theme"));
    assert_eq!(theme_query(2), ("org.kde.gtk.config", "darkMode"));
}

#[test]
fn diagnostics_run_only_the_needed_checks() {
    let mut p = HostProbe::new();
    assert_eq!(diagnostic_next_probe(false, false, true, &p), None);
    assert_eq!(diagnostic_next_probe(false, true, false, &p), Some(Probe::Qdbus6));
    p.record(Probe::Qdbus6, true);
    assert_eq!(diagnostic_next_probe(false, true, false, &p), Some(Probe::Journalctl));
    p.record(Probe::Journalctl, true);
    assert_eq!(diagnostic_next_probe(false, true, false, &p), Some(Probe::Uinput));
    p.record(Probe::Uinput, false);
    assert_eq!(diagnostic_next_probe(false, true, false, &p), None);
    let checks = diagnostic_checks(false, true, false, &p, false);
    assert!(checks[1].ok);
    assert!(!checks[0].ok);
}

#[test]
fn version_checks() {
    assert_eq!(current_version(), "0.2.0");
    assert_eq!(version_label(), "v0.2.0");
    assert_eq!(version_check_result(Some("0.2.0\n")), Ok((true, "0.2.0".to_string())));
    assert_eq!(version_check_result(Some(" 0.3.1 ")), Ok((false, "0.3.1".to_string())));
    assert_eq!(version_check_result(Some("  \n")), Err("Failed to check for updates".to_string()));
    assert_eq!(version_check_result(None), Err("Failed to check for updates".to_string()));
    assert_eq!(
        version_display(&Ok((true, "0.2.0".to_string()))),
        ("Latest".to_string(), "diagnostic-ok", "Check")
    );
    assert_eq!(
        version_display(&Ok((false, "0.3.1".to_string()))),
        ("v0.3.1 available".to_string(), "diagnostic-warning", "Check")
    );
    assert_eq!(
        version_display(&Err("x".to_string())),
        ("Unavailable".to_string(), "diagnostic-error", "Retry")
    );
}

#[test]
fn warning_acknowledged_changes_nothing_else() {
    let mut s = AppState::default();
    s.running = true;
    s.fps_limit = 45;
    acknowledge_warning(&mut s);
    assert!(s.shown_warning);
    assert!(s.running);
    assert_eq!(s.fps_limit, 45);
    assert_eq!(s.runtime_status, RuntimeStatus::Stopped);
}

#[test]
fn start_up_on_unsupported_desktop() {
    let mut s = AppState::default();
    s.mode = 2;
    let env = DesktopEnv {
        hyprland_instance_signature: false,
        xdg_current_desktop: Some("GNOME".to_string()),
        kde_full_session: false,
        wayland_display: true,
        xdg_session_type: Some("wayland".to_string()),
    };
    let probe = HostProbe {
        hyprctl: None,
        grim: None,
        qdbus6: None,
        qdbus: None,
        journalctl: None,
        spectacle: None,
        uinput: Some(true),
    };
    let outcome = preflight(&s.clone(), &env, &probe);
    start_up(&mut s, outcome);
    assert_eq!(s.runtime_status, RuntimeStatus::Error);
    assert!(!s.running);
    assert!(s.manually_stopped);
    assert!(s.shown_warning);
    assert!(s
        .error_message
        .as_deref()
        .unwrap()
        .starts_with("This desktop is not supported yet. Use Hyprland or KDE Plasma 6."));
}

#[test]
fn start_up_with_passing_preflight() {
    let mut s = AppState::default();
    start_up(&mut s, Ok(()));
    assert!(s.shown_warning);
    assert_eq!(s.runtime_status, RuntimeStatus::Stopped);
    assert_eq!(s.error_message, None);
    assert!(!s.running);
}
