use vstd::prelude::*;
use crate::text::{contains, str_contains, to_uppercase, uppercase};

verus! {

/// What the automation is doing right now, as shown to the user.
#[derive(Clone, Copy, Debug, PartialEq, Eq, Structural)]
pub enum RuntimeStatus {
    Stopped,
    WaitingForSober,
    Ready,
    Paused,
    PerformingAction,
    Error,
}

impl Default for RuntimeStatus {
    fn default() -> (status: Self)
        ensures
            status == RuntimeStatus::Stopped,
    {
        RuntimeStatus::Stopped
    }
}

/// The settings the user chose plus the runtime flags of the automation.
///
/// The last four fields are runtime-only: they are never written to the
/// configuration file.
#[derive(Clone, Debug)]
pub struct AppState {
    pub running: bool,
    pub jump: bool,
    pub walk: bool,
    pub spin_jiggle: bool,
    pub interval_seq: u64,
    pub mode: usize,
    pub auto_start: bool,
    pub multi_instance: bool,
    pub user_safe: bool,
    pub auto_reconnect: bool,
    pub fps_capper: bool,
    pub fps_limit: u32,
    pub stop_limit_on_focus: bool,
    pub stealth: bool,
    pub last_run_version: Option<String>,
    pub shown_warning: bool,
    pub manually_stopped: bool,
    pub action_active: bool,
    pub runtime_status: RuntimeStatus,
    pub error_message: Option<String>,
}

/// The settings of a first start.
pub open spec fn is_default_state(s: AppState) -> bool {
    &&& !s.running
    &&& s.jump
    &&& !s.walk
    &&& !s.spin_jiggle
    &&& s.interval_seq == 240
    &&& s.mode == 0
    &&& !s.auto_start
    &&& !s.multi_instance
    &&& !s.user_safe
    &&& !s.auto_reconnect
    &&& !s.fps_capper
    &&& s.fps_limit == 30
    &&& !s.stop_limit_on_focus
    &&& !s.stealth
    &&& s.last_run_version is None
    &&& !s.shown_warning
    &&& !s.manually_stopped
    &&& !s.action_active
    &&& s.runtime_status == RuntimeStatus::Stopped
    &&& s.error_message is None
}

/// A runtime error message is only ever held while the status is `Error`.
pub open spec fn status_consistent(s: AppState) -> bool {
    s.error_message is Some ==> s.runtime_status == RuntimeStatus::Error
}

/// The view of an optional message as text.
pub open spec fn message_view(m: Option<String>) -> Option<Seq<char>> {
    match m {
        Some(t) => Some(t@),
        None => None,
    }
}

impl Default for AppState {
    fn default() -> (s: Self)
        ensures
            is_default_state(s),
            status_consistent(s),
    {
        AppState {
            running: false,
            jump: true,
            walk: false,
            spin_jiggle: false,
            interval_seq: 240,
            mode: 0,
            auto_start: false,
            multi_instance: false,
            user_safe: false,
            auto_reconnect: false,
            fps_capper: false,
            fps_limit: 30,
            stop_limit_on_focus: false,
            stealth: false,
            last_run_version: None,
            shown_warning: false,
            manually_stopped: false,
            action_active: false,
            runtime_status: RuntimeStatus::Stopped,
            error_message: None,
        }
    }
}

/// `t` is `s` with the runtime status set to `status`; any status but
/// `Error` drops the stored error message.
pub open spec fn status_update(s: AppState, status: RuntimeStatus, t: AppState) -> bool {
    &&& t.runtime_status == status
    &&& t.error_message == (if status != RuntimeStatus::Error {
        None
    } else {
        s.error_message
    })
    &&& t == AppState { runtime_status: t.runtime_status, error_message: t.error_message, ..s }
}

/// `t` is `s` stopped with an error: not running, no action in flight,
/// stopped by hand, status `Error`, holding the message `msg`.
pub open spec fn error_update(s: AppState, msg: Seq<char>, t: AppState) -> bool {
    &&& t == AppState {
        running: false,
        action_active: false,
        manually_stopped: true,
        runtime_status: RuntimeStatus::Error,
        error_message: t.error_message,
        ..s
    }
    &&& message_view(t.error_message) == Some(msg)
}

/// Sets the runtime status; any status but `Error` drops the stored error
/// message. Nothing else changes.
pub fn set_runtime_status(state: &mut AppState, status: RuntimeStatus)
    ensures
        status_update(*old(state), status, *final(state)),
        status_consistent(*old(state)) ==> status_consistent(*final(state)),
{
    if status != RuntimeStatus::Error {
        state.error_message = None;
    }
    state.runtime_status = status;
}

/// Stops the automation and records an error: not running, no action in
/// flight, stopped by hand (so that auto-start does not restart it), status
/// `Error` and the given message.
pub fn set_runtime_error(state: &mut AppState, message: &str)
    ensures
        error_update(*old(state), message@, *final(state)),
        status_consistent(*final(state)),
{
    state.running = false;
    state.action_active = false;
    state.manually_stopped = true;
    state.runtime_status = RuntimeStatus::Error;
    state.error_message = Some(message.to_owned());
}

/// What the process environment says about the desktop session.
pub struct DesktopEnv {
    /// `HYPRLAND_INSTANCE_SIGNATURE` is set to valid Unicode.
    pub hyprland_instance_signature: bool,
    /// `XDG_CURRENT_DESKTOP`, where it is set to valid Unicode.
    pub xdg_current_desktop: Option<String>,
    /// `KDE_FULL_SESSION` is set to valid Unicode.
    pub kde_full_session: bool,
    /// `WAYLAND_DISPLAY` is set (to anything).
    pub wayland_display: bool,
    /// `XDG_SESSION_TYPE`, where it is set to valid Unicode.
    pub xdg_session_type: Option<String>,
}

/// A desktop name that names KDE: its uppercase form holds `KDE` or `PLASMA`.
pub open spec fn names_kde(desktop: Seq<char>) -> bool {
    contains(uppercase(desktop), "KDE"@) || contains(uppercase(desktop), "PLASMA"@)
}

pub open spec fn hyprland_session(env: DesktopEnv) -> bool {
    env.hyprland_instance_signature
}

pub open spec fn kde_session(env: DesktopEnv) -> bool {
    (match env.xdg_current_desktop {
        Some(d) => names_kde(d@),
        None => false,
    }) || env.kde_full_session
}

/// The desktop mode: 0 for Hyprland, 1 for KDE Plasma, 2 for anything else;
/// Hyprland wins where both are detected.
pub open spec fn de_mode(env: DesktopEnv) -> usize {
    if hyprland_session(env) {
        0
    } else if kde_session(env) {
        1
    } else {
        2
    }
}

/// The state after loading: the stored settings (or the defaults where none
/// could be read), never running, in the detected desktop mode.
pub open spec fn loaded_state(stored: Option<AppState>, env: DesktopEnv, s: AppState) -> bool {
    &&& !s.running
    &&& s.mode == de_mode(env)
    &&& match stored {
        Some(t) => s == AppState { running: false, mode: de_mode(env), ..t },
        None => is_default_state(AppState { mode: 0, ..s }),
    }
}

impl AppState {
    /// Whether the session is Hyprland.
    pub fn is_hyprland(env: &DesktopEnv) -> (b: bool)
        ensures
            b == hyprland_session(*env),
    {
        env.hyprland_instance_signature
    }

    /// Whether the session is KDE Plasma.
    pub fn is_kde(env: &DesktopEnv) -> (b: bool)
        ensures
            b == kde_session(*env),
    {
        let named = match &env.xdg_current_desktop {
            Some(d) => {
                let v = to_uppercase(d.as_str());
                str_contains(v.as_str(), "KDE") || str_contains(v.as_str(), "PLASMA")
            },
            None => false,
        };
        named || env.kde_full_session
    }

    /// The desktop mode of the session.
    pub fn detect_de_mode(env: &DesktopEnv) -> (mode: usize)
        ensures
            mode == de_mode(*env),
    {
        if Self::is_hyprland(env) {
            0
        } else if Self::is_kde(env) {
            1
        } else {
            2
        }
    }

    /// Builds the state of a start from what the configuration file held
    /// (`None` where it could not be found, read or parsed).
    pub fn from_stored(stored: Option<AppState>, env: &DesktopEnv) -> (s: AppState)
        ensures
            loaded_state(stored, *env, s),
    {
        let mut state = match stored {
            Some(mut s) => {
                s.running = false;
                s
            },
            None => AppState::default(),
        };
        state.mode = Self::detect_de_mode(env);
        state
    }

    /// The state to write to the configuration file: this one, not running.
    pub fn save_snapshot(&self) -> (s: AppState)
        ensures
            s == (AppState { running: false, ..*self }),
    {
        AppState {
            running: false,
            jump: self.jump,
            walk: self.walk,
            spin_jiggle: self.spin_jiggle,
            interval_seq: self.interval_seq,
            mode: self.mode,
            auto_start: self.auto_start,
            multi_instance: self.multi_instance,
            user_safe: self.user_safe,
            auto_reconnect: self.auto_reconnect,
            fps_capper: self.fps_capper,
            fps_limit: self.fps_limit,
            stop_limit_on_focus: self.stop_limit_on_focus,
            stealth: self.stealth,
            last_run_version: copy_text(&self.last_run_version),
            shown_warning: self.shown_warning,
            manually_stopped: self.manually_stopped,
            action_active: self.action_active,
            runtime_status: self.runtime_status,
            error_message: copy_text(&self.error_message),
        }
    }
}

/// A copy of an optional string.
pub fn copy_text(t: &Option<String>) -> (r: Option<String>)
    ensures
        r == *t,
{
    match t {
        Some(s) => Some(s.clone()),
        None => None,
    }
}

/// Recording an error and then setting any other status leaves that status
/// and no error message, with the automation still stopped by hand.
pub proof fn lemma_status_clears_error(
    s0: AppState,
    msg: Seq<char>,
    s1: AppState,
    status: RuntimeStatus,
    s2: AppState,
)
    requires
        error_update(s0, msg, s1),
        status_update(s1, status, s2),
        status != RuntimeStatus::Error,
    ensures
        s2.runtime_status == status,
        s2.error_message is None,
        !s2.running,
        s2.manually_stopped,
        !s2.action_active,
{
}

/// Setting the status `Error` after recording an error keeps its message.
pub proof fn lemma_error_status_keeps_message(
    s0: AppState,
    msg: Seq<char>,
    s1: AppState,
    s2: AppState,
)
    requires
        error_update(s0, msg, s1),
        status_update(s1, RuntimeStatus::Error, s2),
    ensures
        message_view(s2.error_message) == Some(msg),
{
}

} // verus!
