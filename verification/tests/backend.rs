use antiafk::backend::{find_qdbus, preflight, preflight_next_probe, HostProbe, Probe};
use antiafk::state::{AppState, DesktopEnv};

fn all_tools() -> HostProbe {
    HostProbe {
        hyprctl: Some(true),
        grim: Some(true),
        qdbus6: Some(true),
        qdbus: Some(true),
        journalctl: Some(true),
        spectacle: Some(true),
        uinput: Some(true),
    }
}

fn hyprland_env() -> DesktopEnv {
    DesktopEnv {
        hyprland_instance_signature: true,
        xdg_current_desktop: Some("Hyprland".to_string()),
        kde_full_session: false,
        wayland_display: true,
        xdg_session_type: Some("wayland".to_string()),
    }
}

fn kde_env(wayland_display: bool, session: Option<&str>) -> DesktopEnv {
    DesktopEnv {
        hyprland_instance_signature: false,
        xdg_current_desktop: Some("KDE".to_string()),
        kde_full_session: true,
        wayland_display,
        xdg_session_type: session.map(|s| s.to_string()),
    }
}

#[test]
fn qdbus6_is_preferred() {
    assert_eq!(find_qdbus(true, true), Some("qdbus6"));
    assert_eq!(find_qdbus(true, false), Some("qdbus6"));
    assert_eq!(find_qdbus(false, true), Some("qdbus"));
    assert_eq!(find_qdbus(false, false), None);
}

#[test]
fn preflight_passes_on_ready_hyprland() {
    let s = AppState::default();
    assert_eq!(preflight(&s, &hyprland_env(), &all_tools()), Ok(()));
}

#[test]
fn preflight_reports_missing_hyprland_tools_in_order() {
    let mut s = AppState::default();
    s.auto_reconnect = true;
    let mut p = all_tools();
    p.hyprctl = Some(false);
    p.grim = Some(false);
    p.uinput = Some(false);
    assert_eq!(
        preflight(&s, &hyprland_env(), &p),
        Err("The hyprctl command is not available.\nThe grim command is required for Auto Reconnect.\nAccess to /dev/uinput is denied. Run the permission fix in Settings.".to_string())
    );
}

#[test]
fn preflight_requires_hyprland_in_mode_zero() {
    let s = AppState::default();
    let mut p = all_tools();
    p.hyprctl = Some(false);
    assert_eq!(
        preflight(&s, &kde_env(true, None), &p),
        Err("This desktop is not supported. Hyprland is required.".to_string())
    );
}

#[test]
fn preflight_checks_kde_session() {
    let mut s = AppState::default();
    s.mode = 1;
    assert_eq!(preflight(&s, &kde_env(true, None), &all_tools()), Ok(()));
    assert_eq!(preflight(&s, &kde_env(false, Some("wayland")), &all_tools()), Ok(()));
    s.auto_reconnect = true;
    let mut p = all_tools();
    p.qdbus6 = Some(false);
    p.journalctl = Some(false);
    p.spectacle = Some(false);
    assert_eq!(
        preflight(&s, &kde_env(false, Some("x11")), &p),
        Err("KDE Plasma 6 in a Wayland session is required.\nThe journalctl command is required for window detection.\nThe spectacle command is required for Auto Reconnect.".to_string())
    );
    p.qdbus = Some(false);
    let e = preflight(&s, &kde_env(true, None), &p).unwrap_err();
    assert!(e.starts_with("The qdbus6 or qdbus command is not available.\n"));
    assert_eq!(
        preflight(&s, &hyprland_env(), &all_tools()),
        Err("This desktop is not supported. KDE Plasma 6 is required.".to_string())
    );
}

#[test]
fn preflight_rejects_other_desktops() {
    let mut s = AppState::default();
    s.mode = 2;
    let mut p = all_tools();
    p.uinput = Some(false);
    assert_eq!(
        preflight(&s, &hyprland_env(), &p),
        Err("This desktop is not supported yet. Use Hyprland or KDE Plasma 6.\nAccess to /dev/uinput is denied. Run the permission fix in Settings.".to_string())
    );
}

/// Runs the preflight's checks as the library asks for them, answering from
/// `answers`, and returns the checks in the order they were asked.
fn probe_order(s: &AppState, env: &DesktopEnv, answers: &HostProbe) -> (Vec<Probe>, HostProbe) {
    let mut probe = HostProbe::new();
    let mut asked = Vec::new();
    while let Some(next) = preflight_next_probe(s, env, &probe) {
        let ok = match next {
            Probe::Hyprctl => answers.hyprctl,
            Probe::Grim => answers.grim,
            Probe::Qdbus6 => answers.qdbus6,
            Probe::Qdbus => answers.qdbus,
            Probe::Journalctl => answers.journalctl,
            Probe::Spectacle => answers.spectacle,
            Probe::Uinput => answers.uinput,
        }
        .unwrap();
        probe.record(next, ok);
        asked.push(next);
    }
    (asked, probe)
}

#[test]
fn preflight_runs_only_the_needed_checks() {
    let mut s = AppState::default();
    s.auto_reconnect = true;
    let mut answers = all_tools();
    answers.grim = Some(false);
    let not_hyprland = kde_env(true, None);
    let (asked, probe) = probe_order(&s, &not_hyprland, &answers);
    assert_eq!(asked, vec![Probe::Grim, Probe::Uinput]);
    assert_eq!(
        preflight(&s, &not_hyprland, &probe),
        Err("This desktop is not supported. Hyprland is required.\nThe grim command is required for Auto Reconnect.".to_string())
    );

    let (asked, _) = probe_order(&s, &hyprland_env(), &all_tools());
    assert_eq!(asked, vec![Probe::Hyprctl, Probe::Grim, Probe::Uinput]);

    s.mode = 1;
    s.auto_reconnect = false;
    let (asked, _) = probe_order(&s, &kde_env(true, None), &all_tools());
    assert_eq!(asked, vec![Probe::Qdbus6, Probe::Journalctl, Probe::Uinput]);
    let mut answers = all_tools();
    answers.qdbus6 = Some(false);
    let (asked, probe) = probe_order(&s, &kde_env(true, None), &answers);
    assert_eq!(asked, vec![Probe::Qdbus6, Probe::Qdbus, Probe::Journalctl, Probe::Uinput]);
    assert_eq!(preflight(&s, &kde_env(true, None), &probe), Ok(()));

    s.mode = 5;
    let (asked, _) = probe_order(&s, &hyprland_env(), &all_tools());
    assert_eq!(asked, vec![Probe::Uinput]);
}
