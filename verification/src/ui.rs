use vstd::prelude::*;
use crate::backend::{HostProbe, Probe, first_missing, outcome_of, worked};
use crate::state::{
    AppState, RuntimeStatus, error_update, message_view, set_runtime_error, set_runtime_status,
    status_consistent,
};
use crate::text::{contains, decimal, lowercase, str_contains, str_eq, to_lowercase, trim, trimmed};

verus! {

broadcast use vstd::string::group_string_axioms;

/// The interval presets in seconds, in the order of the interval menu.
pub open spec fn interval_presets() -> Seq<u64> {
    seq![240, 360, 540, 1140]
}

/// The entry of the interval menu for an interval: the matching preset, or
/// 4 ("Custom") for any other value.
pub open spec fn interval_index(seq: u64) -> usize {
    if seq == 240 {
        0
    } else if seq == 360 {
        1
    } else if seq == 540 {
        2
    } else if seq == 1140 {
        3
    } else {
        4
    }
}

/// The label of each entry of the interval menu.
pub open spec fn interval_label(index: usize) -> Seq<char> {
    if index == 0 {
        "4 min"@
    } else if index == 1 {
        "6 min"@
    } else if index == 2 {
        "9 min"@
    } else if index == 3 {
        "19 min"@
    } else {
        "Custom"@
    }
}

/// The interval menu entry, and its label, that shows an interval.
pub fn interval_choice(interval_seq: u64) -> (r: (usize, &'static str))
    ensures
        r.0 == interval_index(interval_seq),
        r.1@ == interval_label(r.0),
{
    if interval_seq == 240 {
        (0, "4 min")
    } else if interval_seq == 360 {
        (1, "6 min")
    } else if interval_seq == 540 {
        (2, "9 min")
    } else if interval_seq == 1140 {
        (3, "19 min")
    } else {
        (4, "Custom")
    }
}

/// Applies a choice from the interval menu: a preset sets the interval; the
/// "Custom" entry (any index from 4 on) leaves it and asks for the editor.
pub fn select_interval(state: &mut AppState, selected: usize) -> (wants_editor: bool)
    ensures
        wants_editor == (selected >= 4),
        selected < 4 ==> *final(state) == (AppState {
            interval_seq: interval_presets()[selected as int],
            ..*old(state)
        }),
        selected >= 4 ==> *final(state) == *old(state),
{
    if selected < 4 {
        let presets: [u64; 4] = [240, 360, 540, 1140];
        state.interval_seq = presets[selected];
        false
    } else {
        true
    }
}

/// The entry of the action menu (Jump, Walk, Camera) for the settings:
/// walking wins over the camera jiggle, and jumping is the fallback.
pub open spec fn action_index_of(s: AppState) -> usize {
    if s.walk {
        1
    } else if s.spin_jiggle {
        2
    } else {
        0
    }
}

pub fn action_index(state: &AppState) -> (i: usize)
    ensures
        i == action_index_of(*state),
{
    if state.walk {
        1
    } else if state.spin_jiggle {
        2
    } else {
        0
    }
}

/// Applies a choice from the action menu: exactly the chosen action is on.
pub fn select_action(state: &mut AppState, selected: usize)
    ensures
        *final(state) == (AppState {
            jump: selected == 0,
            walk: selected == 1,
            spin_jiggle: selected == 2,
            ..*old(state)
        }),
{
    state.jump = selected == 0;
    state.walk = selected == 1;
    state.spin_jiggle = selected == 2;
}

/// The positions of the switches and the CPU quota spin button.
pub struct SwitchValues {
    pub auto_start: bool,
    pub multi_instance: bool,
    pub stealth: bool,
    pub user_safe: bool,
    pub auto_reconnect: bool,
    pub fps_capper: bool,
    pub fps_limit: u32,
    pub stop_limit_on_focus: bool,
}

/// Copies the switches into the settings; turning auto-start on forgets that
/// the user stopped the automation by hand.
pub fn apply_switches(state: &mut AppState, v: &SwitchValues)
    ensures
        *final(state) == (AppState {
            auto_start: v.auto_start,
            multi_instance: v.multi_instance,
            stealth: v.stealth,
            user_safe: v.user_safe,
            auto_reconnect: v.auto_reconnect,
            fps_capper: v.fps_capper,
            fps_limit: v.fps_limit,
            stop_limit_on_focus: v.stop_limit_on_focus,
            manually_stopped: if v.auto_start && !old(state).auto_start {
                false
            } else {
                old(state).manually_stopped
            },
            ..*old(state)
        }),
{
    let manually_stopped = if v.auto_start && !state.auto_start {
        false
    } else {
        state.manually_stopped
    };
    state.manually_stopped = manually_stopped;
    state.auto_start = v.auto_start;
    state.multi_instance = v.multi_instance;
    state.stealth = v.stealth;
    state.user_safe = v.user_safe;
    state.auto_reconnect = v.auto_reconnect;
    state.fps_capper = v.fps_capper;
    state.fps_limit = v.fps_limit;
    state.stop_limit_on_focus = v.stop_limit_on_focus;
}

/// The label and style class of the main button.
pub open spec fn toggle_look_of(diagnostics_visible: bool, running: bool) -> (Seq<char>, Seq<char>) {
    if diagnostics_visible {
        ("Back to Settings"@, "back-button"@)
    } else if running {
        ("Stop Anti-AFK"@, "stop-button"@)
    } else {
        ("Start Anti-AFK"@, "start-button"@)
    }
}

pub fn toggle_look(diagnostics_visible: bool, running: bool) -> (r: (&'static str, &'static str))
    ensures
        (r.0@, r.1@) == toggle_look_of(diagnostics_visible, running),
{
    if diagnostics_visible {
        ("Back to Settings", "back-button")
    } else if running {
        ("Stop Anti-AFK", "stop-button")
    } else {
        ("Start Anti-AFK", "start-button")
    }
}

/// The status badge in the header: its text, style class and whether it shows.
pub open spec fn status_badge_of(status: RuntimeStatus, diagnostics_visible: bool) -> (
    Seq<char>,
    Seq<char>,
    bool,
) {
    if diagnostics_visible {
        (""@, ""@, false)
    } else {
        match status {
            RuntimeStatus::Stopped => ("Anti-AFK is off"@, ""@, false),
            RuntimeStatus::WaitingForSober => ("Waiting for Sober"@, ""@, true),
            RuntimeStatus::Ready => ("Anti-AFK is on"@, "active"@, false),
            RuntimeStatus::Paused => ("Paused - mouse activity"@, "paused"@, true),
            RuntimeStatus::PerformingAction => ("Performing action"@, "active"@, true),
            RuntimeStatus::Error => ("Setup required"@, "error"@, true),
        }
    }
}

pub fn status_badge(status: RuntimeStatus, diagnostics_visible: bool) -> (r: (
    &'static str,
    &'static str,
    bool,
))
    ensures
        (r.0@, r.1@, r.2) == status_badge_of(status, diagnostics_visible),
{
    if diagnostics_visible {
        ("", "", false)
    } else {
        match status {
            RuntimeStatus::Stopped => ("Anti-AFK is off", "", false),
            RuntimeStatus::WaitingForSober => ("Waiting for Sober", "", true),
            RuntimeStatus::Ready => ("Anti-AFK is on", "active", false),
            RuntimeStatus::Paused => ("Paused - mouse activity", "paused", true),
            RuntimeStatus::PerformingAction => ("Performing action", "active", true),
            RuntimeStatus::Error => ("Setup required", "error", true),
        }
    }
}

/// The error line under the main button: shown in the settings page while the
/// status is `Error`, with the stored message or "Unknown error".
pub open spec fn error_banner_of(s: AppState, diagnostics_visible: bool) -> Option<Seq<char>> {
    if !diagnostics_visible && s.runtime_status == RuntimeStatus::Error {
        match s.error_message {
            Some(m) => Some(m@),
            None => Some("Unknown error"@),
        }
    } else {
        None
    }
}

pub fn error_banner(state: &AppState, diagnostics_visible: bool) -> (r: Option<String>)
    ensures
        message_view(r) == error_banner_of(*state, diagnostics_visible),
{
    if !diagnostics_visible && state.runtime_status == RuntimeStatus::Error {
        match &state.error_message {
            Some(m) => Some(m.clone()),
            None => Some("Unknown error".to_owned()),
        }
    } else {
        None
    }
}

/// The settings can be changed while the automation is off and idle.
pub fn controls_enabled(running: bool, action_active: bool) -> (b: bool)
    ensures
        b == (!running && !action_active),
{
    !running && !action_active
}

/// What a press of the main button asks for.
#[derive(Clone, Copy, Debug, PartialEq, Eq, Structural)]
pub enum ToggleIntent {
    /// Go back from the diagnostics page (and check the setup again).
    LeaveDiagnostics,
    Stop,
    /// Start, once the preflight passes.
    Start,
}

pub fn toggle_intent(diagnostics_visible: bool, running: bool) -> (t: ToggleIntent)
    ensures
        t == (if diagnostics_visible {
            ToggleIntent::LeaveDiagnostics
        } else if running {
            ToggleIntent::Stop
        } else {
            ToggleIntent::Start
        }),
{
    if diagnostics_visible {
        ToggleIntent::LeaveDiagnostics
    } else if running {
        ToggleIntent::Stop
    } else {
        ToggleIntent::Start
    }
}

/// Stopping by hand: not running, stopped by hand, status `Stopped`, no error.
pub fn stop_automation(state: &mut AppState)
    ensures
        *final(state) == (AppState {
            running: false,
            manually_stopped: true,
            runtime_status: RuntimeStatus::Stopped,
            error_message: None,
            ..*old(state)
        }),
        status_consistent(*final(state)),
{
    state.running = false;
    state.manually_stopped = true;
    set_runtime_status(state, RuntimeStatus::Stopped);
}

/// Starting by hand once the preflight ran: on success the automation runs and
/// waits for Sober; on failure it records the preflight report as the error.
pub fn start_automation(state: &mut AppState, preflight: Result<(), String>)
    ensures
        preflight is Ok ==> *final(state) == (AppState {
            running: true,
            manually_stopped: false,
            runtime_status: RuntimeStatus::WaitingForSober,
            error_message: None,
            ..*old(state)
        }),
        preflight matches Err(e) ==> error_update(*old(state), e@, *final(state)),
        status_consistent(*old(state)) ==> status_consistent(*final(state)),
{
    match preflight {
        Ok(()) => {
            state.running = true;
            state.manually_stopped = false;
            set_runtime_status(state, RuntimeStatus::WaitingForSober);
        },
        Err(e) => set_runtime_error(state, e.as_str()),
    }
}

/// Leaving the diagnostics page once the preflight ran again: a passing check
/// clears an `Error` status to `Stopped`; a failing one records its report.
pub fn leave_diagnostics(state: &mut AppState, preflight: Result<(), String>)
    ensures
        preflight is Ok ==> *final(state) == (if old(state).runtime_status == RuntimeStatus::Error {
            AppState { runtime_status: RuntimeStatus::Stopped, error_message: None, ..*old(state) }
        } else {
            *old(state)
        }),
        preflight matches Err(e) ==> error_update(*old(state), e@, *final(state)),
        status_consistent(*old(state)) ==> status_consistent(*final(state)),
{
    match preflight {
        Ok(()) => {
            if state.runtime_status == RuntimeStatus::Error {
                state.runtime_status = RuntimeStatus::Stopped;
                state.error_message = None;
            }
        },
        Err(e) => set_runtime_error(state, e.as_str()),
    }
}

/// The preflight at start-up: a failure is recorded as the error; a pass
/// changes nothing.
pub fn record_preflight(state: &mut AppState, preflight: Result<(), String>)
    ensures
        preflight is Ok ==> *final(state) == *old(state),
        preflight matches Err(e) ==> error_update(*old(state), e@, *final(state)),
        status_consistent(*old(state)) ==> status_consistent(*final(state)),
{
    match preflight {
        Ok(()) => {},
        Err(e) => set_runtime_error(state, e.as_str()),
    }
}

/// The first-start warning was acknowledged: it is marked as shown and
/// nothing else changes.
pub fn acknowledge_warning(state: &mut AppState)
    ensures
        *final(state) == (AppState { shown_warning: true, ..*old(state) }),
{
    state.shown_warning = true;
}

/// Opening the window: the first-start warning counts as shown, and the
/// preflight's failure, if any, is recorded as the error.
pub fn start_up(state: &mut AppState, preflight: Result<(), String>)
    ensures
        preflight is Ok ==> *final(state) == (AppState { shown_warning: true, ..*old(state) }),
        preflight matches Err(e) ==> error_update(
            AppState { shown_warning: true, ..*old(state) },
            e@,
            *final(state),
        ),
        final(state).shown_warning,
        status_consistent(*old(state)) ==> status_consistent(*final(state)),
{
    acknowledge_warning(state);
    record_preflight(state, preflight);
}

/// The name of the desktop mode in the diagnostics, and whether it is supported.
pub fn environment_label(mode: usize) -> (r: (&'static str, bool))
    ensures
        mode == 0 ==> r.0@ == "Hyprland"@ && r.1,
        mode == 1 ==> r.0@ == "KDE Plasma 6"@ && r.1,
        mode > 1 ==> r.0@ == "Unsupported"@ && !r.1,
{
    if mode == 0 {
        ("Hyprland", true)
    } else if mode == 1 {
        ("KDE Plasma 6", true)
    } else {
        ("Unsupported", false)
    }
}

/// The button next to the uinput check: install the udev rule that opens
/// `/dev/uinput`, or remove it where it is installed.
#[derive(Clone, Copy, Debug, PartialEq, Eq, Structural)]
pub enum UinputFix {
    InstallRule,
    RemoveRule,
}

/// One line of the diagnostics page.
pub struct DiagnosticCheck {
    pub title: &'static str,
    pub ok: bool,
    pub fix: Option<UinputFix>,
}

pub open spec fn check_if(cond: bool, title: Seq<char>, ok: bool) -> Seq<(Seq<char>, bool, Option<UinputFix>)> {
    if cond {
        seq![(title, ok, None)]
    } else {
        Seq::empty()
    }
}

/// The checks the diagnostics page lists after the preflight, in order.
pub open spec fn diagnostic_list(
    hyprland: bool,
    kde: bool,
    auto_reconnect: bool,
    p: HostProbe,
    rule_installed: bool,
) -> Seq<(Seq<char>, bool, Option<UinputFix>)> {
    if hyprland || kde {
        seq![("uinput Permissions"@, worked(p.uinput), Some(if rule_installed {
            UinputFix::RemoveRule
        } else {
            UinputFix::InstallRule
        }))] + check_if(hyprland, "hyprctl Utility"@, worked(p.hyprctl)) + check_if(
            hyprland && auto_reconnect,
            "grim Tool"@,
            worked(p.grim),
        ) + check_if(kde, "qdbus Utility"@, worked(p.qdbus6) || worked(p.qdbus)) + check_if(
            kde,
            "journalctl Utility"@,
            worked(p.journalctl),
        ) + check_if(kde && auto_reconnect, "spectacle Tool"@, worked(p.spectacle))
    } else {
        Seq::empty()
    }
}

pub open spec fn check_views(v: Seq<DiagnosticCheck>) -> Seq<(Seq<char>, bool, Option<UinputFix>)> {
    v.map_values(|c: DiagnosticCheck| (c.title@, c.ok, c.fix))
}

fn add_check(list: &mut Vec<DiagnosticCheck>, cond: bool, title: &'static str, ok: bool)
    ensures
        check_views(final(list)@) == check_views(old(list)@) + check_if(cond, title@, ok),
{
    if cond {
        list.push(DiagnosticCheck { title, ok, fix: None });
    }
    assert(check_views(list@) =~= check_views(old(list)@) + check_if(cond, title@, ok));
}

/// The checks that the diagnostics page runs: none off Hyprland and KDE;
/// there `/dev/uinput`, on Hyprland `hyprctl` (and `grim` for Auto Reconnect),
/// on KDE `qdbus6` (`qdbus` only where it failed), `journalctl` (and
/// `spectacle` for Auto Reconnect).
pub open spec fn diagnostic_needs(
    hyprland: bool,
    kde: bool,
    auto_reconnect: bool,
    p: HostProbe,
    probe: Probe,
) -> bool {
    match probe {
        Probe::Uinput => hyprland || kde,
        Probe::Hyprctl => hyprland,
        Probe::Grim => hyprland && auto_reconnect,
        Probe::Qdbus6 => kde,
        Probe::Qdbus => kde && p.qdbus6 == Some(false),
        Probe::Journalctl => kde,
        Probe::Spectacle => kde && auto_reconnect,
    }
}

/// The next check the diagnostics page runs, or `None` once every check it
/// needs has an outcome.
pub fn diagnostic_next_probe(hyprland: bool, kde: bool, auto_reconnect: bool, probe: &HostProbe) -> (r:
    Option<Probe>)
    ensures
        r == first_missing(|q: Probe| diagnostic_needs(hyprland, kde, auto_reconnect, *probe, q), *probe),
        r matches Some(q) ==> diagnostic_needs(hyprland, kde, auto_reconnect, *probe, q) && outcome_of(
            *probe,
            q,
        ) is None,
        r is None ==> forall|q: Probe|
            diagnostic_needs(hyprland, kde, auto_reconnect, *probe, q) ==> outcome_of(*probe, q) is Some,
{
    if hyprland && probe.hyprctl.is_none() {
        Some(Probe::Hyprctl)
    } else if hyprland && auto_reconnect && probe.grim.is_none() {
        Some(Probe::Grim)
    } else if kde && probe.qdbus6.is_none() {
        Some(Probe::Qdbus6)
    } else if kde && probe.qdbus6 == Some(false) && probe.qdbus.is_none() {
        Some(Probe::Qdbus)
    } else if kde && probe.journalctl.is_none() {
        Some(Probe::Journalctl)
    } else if kde && auto_reconnect && probe.spectacle.is_none() {
        Some(Probe::Spectacle)
    } else if (hyprland || kde) && probe.uinput.is_none() {
        Some(Probe::Uinput)
    } else {
        proof {
            assert forall|q: Probe| diagnostic_needs(hyprland, kde, auto_reconnect, *probe, q) implies outcome_of(
                *probe,
                q,
            ) is Some by {
                match q {
                    Probe::Hyprctl => {},
                    Probe::Grim => {},
                    Probe::Qdbus6 => {},
                    Probe::Qdbus => {},
                    Probe::Journalctl => {},
                    Probe::Spectacle => {},
                    Probe::Uinput => {},
                }
            }
        }
        None
    }
}

/// The checks of the diagnostics page for the detected desktop.
pub fn diagnostic_checks(
    hyprland: bool,
    kde: bool,
    auto_reconnect: bool,
    probe: &HostProbe,
    rule_installed: bool,
) -> (list: Vec<DiagnosticCheck>)
    ensures
        check_views(list@) == diagnostic_list(hyprland, kde, auto_reconnect, *probe, rule_installed),
{
    let mut list: Vec<DiagnosticCheck> = Vec::new();
    if hyprland || kde {
        let fix = if rule_installed {
            UinputFix::RemoveRule
        } else {
            UinputFix::InstallRule
        };
        list.push(
            DiagnosticCheck { title: "uinput Permissions", ok: probe.uinput == Some(true), fix: Some(fix) },
        );
        add_check(&mut list, hyprland, "hyprctl Utility", probe.hyprctl == Some(true));
        add_check(&mut list, hyprland && auto_reconnect, "grim Tool", probe.grim == Some(true));
        add_check(
            &mut list,
            kde,
            "qdbus Utility",
            probe.qdbus6 == Some(true) || probe.qdbus == Some(true),
        );
        add_check(&mut list, kde, "journalctl Utility", probe.journalctl == Some(true));
        add_check(&mut list, kde && auto_reconnect, "spectacle Tool", probe.spectacle == Some(true));
    }
    assert(check_views(list@) =~= diagnostic_list(hyprland, kde, auto_reconnect, *probe, rule_installed));
    list
}

/// Whether a check passed.
#[derive(Clone, Copy, Debug, PartialEq, Eq, Structural)]
pub enum ItemStatus {
    Passed,
    Failed,
}

/// The icon, status text and style class of a diagnostics line.
pub fn item_look(status: ItemStatus) -> (r: (&'static str, &'static str, &'static str))
    ensures
        status == ItemStatus::Passed ==> r.0@ == "check"@ && r.1@ == "Ready"@ && r.2@ == "diagnostic-ok"@,
        status == ItemStatus::Failed ==> r.0@ == "warning"@ && r.1@ == "Error"@ && r.2@
            == "diagnostic-error"@,
{
    match status {
        ItemStatus::Passed => ("check", "Ready", "diagnostic-ok"),
        ItemStatus::Failed => ("warning", "Error", "diagnostic-error"),
    }
}

/// The icons bundled with the application.
pub open spec fn icon_names() -> Seq<Seq<char>> {
    seq![
        "interval"@,
        "action"@,
        "autostart"@,
        "mouse"@,
        "multi"@,
        "hide"@,
        "reconnect"@,
        "performance"@,
        "cpu"@,
        "focus"@,
        "settings"@,
        "info"@,
        "check"@,
        "warning"@,
        "chevron-down"@,
        "repository"@,
    ]
}

/// The bundled icon to show for a name: the icon of that name, or the warning
/// icon for a name that has none.
pub fn icon_for(name: &str) -> (r: &'static str)
    ensures
        r@ == (if icon_names().contains(name@) {
            name@
        } else {
            "warning"@
        }),
{
    let names: [&'static str; 16] = [
        "interval",
        "action",
        "autostart",
        "mouse",
        "multi",
        "hide",
        "reconnect",
        "performance",
        "cpu",
        "focus",
        "settings",
        "info",
        "check",
        "warning",
        "chevron-down",
        "repository",
    ];
    assert(names@.map_values(|n: &str| n@) =~= icon_names());
    let mut i: usize = 0;
    while i < 16
        invariant
            i <= 16,
            names@.len() == 16,
            names@.map_values(|n: &str| n@) == icon_names(),
            forall|k: int| 0 <= k < i ==> names@[k]@ != name@,
        decreases 16 - i,
    {
        if str_eq(names[i], name) {
            assert(icon_names()[i as int] == name@);
            return names[i];
        }
        i = i + 1;
    }
    proof {
        if icon_names().contains(name@) {
            let k = choose|k: int| 0 <= k < icon_names().len() && icon_names()[k] == name@;
            assert(names@[k]@ == name@);
        }
    }
    "warning"
}

/// The menu entry a compact select shows first: the requested one, or the
/// first where the request is out of range.
pub fn initial_option(requested: usize, count: usize) -> (i: usize)
    requires
        count > 0,
    ensures
        i == (if requested < count {
            requested
        } else {
            0
        }),
{
    if requested < count {
        requested
    } else {
        0
    }
}

/// A theme name that asks for a dark look: lowercased, it holds `dark`.
pub open spec fn dark_theme_name(theme: Seq<char>) -> bool {
    contains(lowercase(theme), "dark"@)
}

/// A `gsettings get` answer that asks for a dark look: lowercased, it holds
/// `prefer-dark` or `dark`, or it is `true` once trimmed.
pub open spec fn dark_setting(answer: Seq<char>) -> bool {
    let v = lowercase(answer);
    contains(v, "prefer-dark"@) || contains(v, "dark"@) || trim(v) == "true"@
}

/// The `gsettings get` queries that may tell the colour scheme, in the order
/// they are asked: schema and key.
pub open spec fn theme_queries() -> Seq<(Seq<char>, Seq<char>)> {
    seq![
        ("org.gnome.desktop.interface"@, "color-scheme"@),
        ("org.gnome.desktop.interface"@, "gtk-theme"@),
        ("org.kde.gtk.config"@, "darkMode"@),
    ]
}

/// The schema and key of a colour-scheme query.
pub fn theme_query(i: usize) -> (q: (&'static str, &'static str))
    requires
        i < 3,
    ensures
        (q.0@, q.1@) == theme_queries()[i as int],
{
    if i == 0 {
        ("org.gnome.desktop.interface", "color-scheme")
    } else if i == 1 {
        ("org.gnome.desktop.interface", "gtk-theme")
    } else {
        ("org.kde.gtk.config", "darkMode")
    }
}

/// The next step of the dark-theme check.
#[derive(Clone, Copy, Debug, PartialEq, Eq, Structural)]
pub enum ThemeStep {
    Dark,
    Light,
    /// Run the colour-scheme query of this index and report its answer.
    Query(usize),
}

/// One answer of a query: `None` where `gsettings` failed, else what it printed.
pub open spec fn answer_views(v: Seq<Option<String>>) -> Seq<Option<Seq<char>>> {
    v.map_values(|a: Option<String>| match a {
        Some(t) => Some(t@),
        None => None,
    })
}

/// Some answer so far asks for a dark look.
pub open spec fn dark_answer(answers: Seq<Option<Seq<char>>>) -> bool {
    exists|i: int| 0 <= i < answers.len() && (#[trigger] answers[i] matches Some(t) && dark_setting(t))
}

/// The dark-theme check after `GTK_THEME` and the answers so far: dark as soon
/// as the theme name or an answer asks for it, else the next query while one
/// is left, else light.
pub open spec fn theme_step_of(gtk_theme: Option<Seq<char>>, answers: Seq<Option<Seq<char>>>) -> ThemeStep {
    if gtk_theme matches Some(t) && dark_theme_name(t) {
        ThemeStep::Dark
    } else if dark_answer(answers) {
        ThemeStep::Dark
    } else if answers.len() < theme_queries().len() {
        ThemeStep::Query(answers.len() as usize)
    } else {
        ThemeStep::Light
    }
}

fn setting_is_dark(answer: &str) -> (b: bool)
    ensures
        b == dark_setting(answer@),
{
    let v = to_lowercase(answer);
    let t = trimmed(v.as_str());
    str_contains(v.as_str(), "prefer-dark") || str_contains(v.as_str(), "dark") || str_eq(
        t.as_str(),
        "true",
    )
}

/// The next step of the dark-theme check, from `GTK_THEME` and the answers of
/// the queries asked so far, in order.
pub fn theme_step(gtk_theme: &Option<String>, answers: &Vec<Option<String>>) -> (step: ThemeStep)
    ensures
        step == theme_step_of(
            match gtk_theme {
                Some(t) => Some(t@),
                None => None,
            },
            answer_views(answers@),
        ),
{
    if let Some(t) = gtk_theme {
        let l = to_lowercase(t.as_str());
        if str_contains(l.as_str(), "dark") {
            return ThemeStep::Dark;
        }
    }
    let ghost views = answer_views(answers@);
    let mut i: usize = 0;
    while i < answers.len()
        invariant
            i <= answers@.len(),
            views == answer_views(answers@),
            forall|k: int| 0 <= k < i ==> !(#[trigger] views[k] matches Some(t) && dark_setting(t)),
        decreases answers@.len() - i,
    {
        if let Some(a) = &answers[i] {
            if setting_is_dark(a.as_str()) {
                assert(views[i as int] matches Some(t) && dark_setting(t));
                return ThemeStep::Dark;
            }
        }
        i = i + 1;
    }
    if answers.len() < 3 {
        ThemeStep::Query(answers.len())
    } else {
        ThemeStep::Light
    }
}

/// `gsettings` is not asked once `GTK_THEME` asks for a dark look, nor after
/// an answer that does.
pub proof fn lemma_theme_stops_early(gtk_theme: Option<Seq<char>>, answers: Seq<Option<Seq<char>>>)
    requires
        (gtk_theme matches Some(t) && dark_theme_name(t)) || dark_answer(answers),
    ensures
        theme_step_of(gtk_theme, answers) == ThemeStep::Dark,
{
}

/// Once every query has an answer, the check is dark exactly when the theme
/// name or some answer asks for it.
pub proof fn lemma_theme_result(gtk_theme: Option<Seq<char>>, answers: Seq<Option<Seq<char>>>)
    requires
        answers.len() >= 3,
    ensures
        theme_step_of(gtk_theme, answers) != ThemeStep::Query(0) && theme_step_of(gtk_theme, answers)
            != ThemeStep::Query(1) && theme_step_of(gtk_theme, answers) != ThemeStep::Query(2),
        (theme_step_of(gtk_theme, answers) == ThemeStep::Dark) <==> ((gtk_theme matches Some(t)
            && dark_theme_name(t)) || dark_answer(answers)),
{
}

/// The version of this release.
pub fn current_version() -> (v: &'static str)
    ensures
        v@ == "0.2.0"@,
{
    "0.2.0"
}

/// The outcome of a version check from what the download printed (`None`
/// where it failed): the trimmed text is the latest version, compared with
/// this release; an empty answer is a failure.
pub open spec fn version_check_of(output: Option<Seq<char>>) -> Result<(bool, Seq<char>), Seq<char>> {
    match output {
        Some(o) if trim(o).len() > 0 => Ok((trim(o) == "0.2.0"@, trim(o))),
        _ => Err("Failed to check for updates"@),
    }
}

pub fn version_check_result(output: Option<&str>) -> (r: Result<(bool, String), String>)
    ensures
        match r {
            Ok((same, latest)) => version_check_of(
                match output {
                    Some(o) => Some(o@),
                    None => None,
                },
            ) == Ok::<(bool, Seq<char>), Seq<char>>((same, latest@)),
            Err(e) => version_check_of(
                match output {
                    Some(o) => Some(o@),
                    None => None,
                },
            ) == Err::<(bool, Seq<char>), Seq<char>>(e@),
        },
{
    match output {
        Some(o) => {
            let t = trimmed(o);
            if t.as_str().is_empty() {
                Err("Failed to check for updates".to_owned())
            } else {
                let same = str_eq(current_version(), t.as_str());
                Ok((same, t))
            }
        },
        None => Err("Failed to check for updates".to_owned()),
    }
}

/// The text, style class and button label that show a version check.
pub open spec fn version_display_of(r: Result<(bool, Seq<char>), Seq<char>>) -> (
    Seq<char>,
    Seq<char>,
    Seq<char>,
) {
    match r {
        Ok((true, _)) => ("Latest"@, "diagnostic-ok"@, "Check"@),
        Ok((false, latest)) => ("v"@ + latest + " available"@, "diagnostic-warning"@, "Check"@),
        Err(_) => ("Unavailable"@, "diagnostic-error"@, "Retry"@),
    }
}

pub fn version_display(r: &Result<(bool, String), String>) -> (d: (
    String,
    &'static str,
    &'static str,
))
    ensures
        (d.0@, d.1@, d.2@) == version_display_of(
            match r {
                Ok((b, l)) => Ok((*b, l@)),
                Err(e) => Err(e@),
            },
        ),
{
    match r {
        Ok((true, _)) => ("Latest".to_owned(), "diagnostic-ok", "Check"),
        Ok((false, latest)) => (
            "v".to_owned().concat(latest.as_str()).concat(" available"),
            "diagnostic-warning",
            "Check",
        ),
        Err(_) => ("Unavailable".to_owned(), "diagnostic-error", "Retry"),
    }
}

/// The label that shows this release before any check.
pub fn version_label() -> (l: String)
    ensures
        l@ == "v"@ + "0.2.0"@,
{
    "v".to_owned().concat(current_version())
}

/// Choosing an interval preset and reading the menu back gives the same entry.
pub proof fn lemma_interval_round_trip(selected: usize)
    requires
        selected < 4,
    ensures
        interval_index(interval_presets()[selected as int]) == selected,
{
}

/// Choosing an idle action and reading the menu back gives the same entry.
pub proof fn lemma_action_round_trip(s: AppState, selected: usize)
    requires
        selected < 3,
    ensures
        action_index_of(
            AppState { jump: selected == 0, walk: selected == 1, spin_jiggle: selected == 2, ..s },
        ) == selected,
{
}


/// The label of every preset of the interval menu tells its length in whole
/// minutes, and the menu shows a preset's entry only for that very interval.
pub proof fn lemma_interval_labels_tell_minutes(k: int, x: u64)
    requires
        0 <= k < 4,
    ensures
        interval_presets()[k] % 60 == 0,
        interval_label(k as usize) == decimal((interval_presets()[k] / 60) as nat) + " min"@,
        interval_index(x) < 4 ==> x == interval_presets()[interval_index(x) as int],
{
    reveal_strlit("4 min");
    reveal_strlit("6 min");
    reveal_strlit("9 min");
    reveal_strlit("19 min");
    reveal_strlit(" min");
    reveal_with_fuel(decimal, 2);
    assert(decimal(4) =~= seq!['4']);
    assert(decimal(6) =~= seq!['6']);
    assert(decimal(9) =~= seq!['9']);
    assert(decimal(1) =~= seq!['1']);
    assert(decimal(19) =~= seq!['1', '9']);
    assert(interval_label(0) =~= decimal(4) + " min"@);
    assert(interval_label(1) =~= decimal(6) + " min"@);
    assert(interval_label(2) =~= decimal(9) + " min"@);
    assert(interval_label(3) =~= decimal(19) + " min"@);
}

/// A diagnostics line shows the outcome of its own check: each title's flag
/// is what that tool's probe gave (either qdbus tool counts).
pub open spec fn line_reports_own_probe(e: (Seq<char>, bool, Option<UinputFix>), p: HostProbe) -> bool {
    &&& e.0 == "uinput Permissions"@ ==> e.1 == worked(p.uinput)
    &&& e.0 == "hyprctl Utility"@ ==> e.1 == worked(p.hyprctl)
    &&& e.0 == "grim Tool"@ ==> e.1 == worked(p.grim)
    &&& e.0 == "qdbus Utility"@ ==> e.1 == (worked(p.qdbus6) || worked(p.qdbus))
    &&& e.0 == "journalctl Utility"@ ==> e.1 == worked(p.journalctl)
    &&& e.0 == "spectacle Tool"@ ==> e.1 == worked(p.spectacle)
}

pub open spec fn all_lines_report_own_probe(v: Seq<(Seq<char>, bool, Option<UinputFix>)>, p: HostProbe) -> bool {
    forall|i: int| 0 <= i < v.len() ==> #[trigger] line_reports_own_probe(v[i], p)
}

proof fn lemma_reports_concat(
    a: Seq<(Seq<char>, bool, Option<UinputFix>)>,
    b: Seq<(Seq<char>, bool, Option<UinputFix>)>,
    p: HostProbe,
)
    requires
        all_lines_report_own_probe(a, p),
        all_lines_report_own_probe(b, p),
    ensures
        all_lines_report_own_probe(a + b, p),
{
    assert forall|i: int| 0 <= i < (a + b).len() implies #[trigger] line_reports_own_probe((a + b)[i], p) by {
        if i < a.len() {
            assert((a + b)[i] == a[i]);
        } else {
            assert((a + b)[i] == b[i - a.len()]);
        }
    }
}

/// Every line of the diagnostics page shows the outcome of its own probe, and
/// the first line, where any is listed, is the uinput check.
pub proof fn lemma_diagnostics_report_own_probe(
    hyprland: bool,
    kde: bool,
    auto_reconnect: bool,
    p: HostProbe,
    rule_installed: bool,
)
    ensures
        all_lines_report_own_probe(diagnostic_list(hyprland, kde, auto_reconnect, p, rule_installed), p),
        (hyprland || kde) ==> diagnostic_list(hyprland, kde, auto_reconnect, p, rule_installed)[0] == (
            "uinput Permissions"@,
            worked(p.uinput),
            Some(if rule_installed { UinputFix::RemoveRule } else { UinputFix::InstallRule }),
        ),
        !(hyprland || kde) ==> diagnostic_list(hyprland, kde, auto_reconnect, p, rule_installed).len() == 0,
{
    reveal_strlit("uinput Permissions");
    reveal_strlit("hyprctl Utility");
    reveal_strlit("grim Tool");
    reveal_strlit("qdbus Utility");
    reveal_strlit("journalctl Utility");
    reveal_strlit("spectacle Tool");
    assert("uinput Permissions"@[0] == 'u');
    assert("hyprctl Utility"@[0] == 'h');
    assert("grim Tool"@[0] == 'g');
    assert("qdbus Utility"@[0] == 'q');
    assert("journalctl Utility"@[0] == 'j');
    assert("spectacle Tool"@[0] == 's');
    if hyprland || kde {
        let fix = Some(if rule_installed { UinputFix::RemoveRule } else { UinputFix::InstallRule });
        let u = seq![("uinput Permissions"@, worked(p.uinput), fix)];
        let c1 = check_if(hyprland, "hyprctl Utility"@, worked(p.hyprctl));
        let c2 = check_if(hyprland && auto_reconnect, "grim Tool"@, worked(p.grim));
        let c3 = check_if(kde, "qdbus Utility"@, worked(p.qdbus6) || worked(p.qdbus));
        let c4 = check_if(kde, "journalctl Utility"@, worked(p.journalctl));
        let c5 = check_if(kde && auto_reconnect, "spectacle Tool"@, worked(p.spectacle));
        assert(line_reports_own_probe(u[0], p));
        assert(all_lines_report_own_probe(u, p));
        assert(c1.len() > 0 ==> line_reports_own_probe(c1[0], p));
        assert(all_lines_report_own_probe(c1, p));
        assert(c2.len() > 0 ==> line_reports_own_probe(c2[0], p));
        assert(all_lines_report_own_probe(c2, p));
        assert(c3.len() > 0 ==> line_reports_own_probe(c3[0], p));
        assert(all_lines_report_own_probe(c3, p));
        assert(c4.len() > 0 ==> line_reports_own_probe(c4[0], p));
        assert(all_lines_report_own_probe(c4, p));
        assert(c5.len() > 0 ==> line_reports_own_probe(c5[0], p));
        assert(all_lines_report_own_probe(c5, p));
        lemma_reports_concat(u, c1, p);
        lemma_reports_concat(u + c1, c2, p);
        lemma_reports_concat(u + c1 + c2, c3, p);
        lemma_reports_concat(u + c1 + c2 + c3, c4, p);
        lemma_reports_concat(u + c1 + c2 + c3 + c4, c5, p);
        assert(diagnostic_list(hyprland, kde, auto_reconnect, p, rule_installed) == u + c1 + c2 + c3 + c4 + c5);
    }
}


/// Which checks a diagnostics line may stand for on the detected desktop.
pub open spec fn line_belongs(e: (Seq<char>, bool, Option<UinputFix>), hyprland: bool, kde: bool, auto_reconnect: bool) -> bool {
    &&& e.0 == "hyprctl Utility"@ ==> hyprland
    &&& e.0 == "grim Tool"@ ==> hyprland && auto_reconnect
    &&& e.0 == "qdbus Utility"@ ==> kde
    &&& e.0 == "journalctl Utility"@ ==> kde
    &&& e.0 == "spectacle Tool"@ ==> kde && auto_reconnect
}

pub open spec fn lists_title(v: Seq<(Seq<char>, bool, Option<UinputFix>)>, title: Seq<char>) -> bool {
    exists|i: int| 0 <= i < v.len() && (#[trigger] v[i]).0 == title
}

proof fn lemma_belongs_concat(
    a: Seq<(Seq<char>, bool, Option<UinputFix>)>,
    b: Seq<(Seq<char>, bool, Option<UinputFix>)>,
    hyprland: bool,
    kde: bool,
    auto_reconnect: bool,
)
    requires
        forall|i: int| 0 <= i < a.len() ==> #[trigger] line_belongs(a[i], hyprland, kde, auto_reconnect),
        forall|i: int| 0 <= i < b.len() ==> #[trigger] line_belongs(b[i], hyprland, kde, auto_reconnect),
    ensures
        forall|i: int| 0 <= i < (a + b).len() ==> #[trigger] line_belongs((a + b)[i], hyprland, kde, auto_reconnect),
{
    assert forall|i: int| 0 <= i < (a + b).len() implies #[trigger] line_belongs((a + b)[i], hyprland, kde, auto_reconnect) by {
        if i < a.len() {
            assert((a + b)[i] == a[i]);
        } else {
            assert((a + b)[i] == b[i - a.len()]);
        }
    }
}

/// The diagnostics page lists a tool exactly where the detected desktop and
/// Auto Reconnect need it: `hyprctl` on Hyprland, `grim` there with Auto
/// Reconnect, `qdbus` and `journalctl` on KDE, `spectacle` there with Auto
/// Reconnect.
pub proof fn lemma_diagnostics_list_needed_tools(
    hyprland: bool,
    kde: bool,
    auto_reconnect: bool,
    p: HostProbe,
    rule_installed: bool,
)
    ensures
        lists_title(diagnostic_list(hyprland, kde, auto_reconnect, p, rule_installed), "hyprctl Utility"@)
            <==> hyprland,
        lists_title(diagnostic_list(hyprland, kde, auto_reconnect, p, rule_installed), "grim Tool"@)
            <==> hyprland && auto_reconnect,
        lists_title(diagnostic_list(hyprland, kde, auto_reconnect, p, rule_installed), "qdbus Utility"@)
            <==> kde,
        lists_title(diagnostic_list(hyprland, kde, auto_reconnect, p, rule_installed), "journalctl Utility"@)
            <==> kde,
        lists_title(diagnostic_list(hyprland, kde, auto_reconnect, p, rule_installed), "spectacle Tool"@)
            <==> kde && auto_reconnect,
{
    reveal_strlit("uinput Permissions");
    reveal_strlit("hyprctl Utility");
    reveal_strlit("grim Tool");
    reveal_strlit("qdbus Utility");
    reveal_strlit("journalctl Utility");
    reveal_strlit("spectacle Tool");
    assert("uinput Permissions"@[0] == 'u');
    assert("hyprctl Utility"@[0] == 'h');
    assert("grim Tool"@[0] == 'g');
    assert("qdbus Utility"@[0] == 'q');
    assert("journalctl Utility"@[0] == 'j');
    assert("spectacle Tool"@[0] == 's');
    let l = diagnostic_list(hyprland, kde, auto_reconnect, p, rule_installed);
    if hyprland || kde {
        let fix = Some(if rule_installed { UinputFix::RemoveRule } else { UinputFix::InstallRule });
        let u = seq![("uinput Permissions"@, worked(p.uinput), fix)];
        let c1 = check_if(hyprland, "hyprctl Utility"@, worked(p.hyprctl));
        let c2 = check_if(hyprland && auto_reconnect, "grim Tool"@, worked(p.grim));
        let c3 = check_if(kde, "qdbus Utility"@, worked(p.qdbus6) || worked(p.qdbus));
        let c4 = check_if(kde, "journalctl Utility"@, worked(p.journalctl));
        let c5 = check_if(kde && auto_reconnect, "spectacle Tool"@, worked(p.spectacle));
        assert(line_belongs(u[0], hyprland, kde, auto_reconnect));
        assert(c1.len() > 0 ==> line_belongs(c1[0], hyprland, kde, auto_reconnect));
        assert(c2.len() > 0 ==> line_belongs(c2[0], hyprland, kde, auto_reconnect));
        assert(c3.len() > 0 ==> line_belongs(c3[0], hyprland, kde, auto_reconnect));
        assert(c4.len() > 0 ==> line_belongs(c4[0], hyprland, kde, auto_reconnect));
        assert(c5.len() > 0 ==> line_belongs(c5[0], hyprland, kde, auto_reconnect));
        lemma_belongs_concat(u, c1, hyprland, kde, auto_reconnect);
        lemma_belongs_concat(u + c1, c2, hyprland, kde, auto_reconnect);
        lemma_belongs_concat(u + c1 + c2, c3, hyprland, kde, auto_reconnect);
        lemma_belongs_concat(u + c1 + c2 + c3, c4, hyprland, kde, auto_reconnect);
        lemma_belongs_concat(u + c1 + c2 + c3 + c4, c5, hyprland, kde, auto_reconnect);
        assert(l == u + c1 + c2 + c3 + c4 + c5);
        let n1 = u.len() as int;
        let n2 = n1 + c1.len();
        let n3 = n2 + c2.len();
        let n4 = n3 + c3.len();
        let n5 = n4 + c4.len();
        if hyprland {
            assert(l[n1] == c1[0]);
        }
        if hyprland && auto_reconnect {
            assert(l[n2] == c2[0]);
        }
        if kde {
            assert(l[n3] == c3[0]);
            assert(l[n4] == c4[0]);
        }
        if kde && auto_reconnect {
            assert(l[n5] == c5[0]);
        }
        assert forall|i: int| 0 <= i < l.len() implies #[trigger] line_belongs(l[i], hyprland, kde, auto_reconnect) by {}
    }
}

} // verus!
