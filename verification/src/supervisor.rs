use vstd::prelude::*;
use crate::state::{
    AppState, RuntimeStatus, error_update, set_runtime_error, set_runtime_status,
    status_consistent,
};

verus! {

/// A desktop notification that the watchdog or the runner asks for.
pub enum Notice {
    /// Sober was seen and the automation started on its own.
    Enabled,
    /// Sober was seen but the automation could not start; the preflight report.
    CannotAutoStart(String),
    /// Sober went away and the automation stopped.
    Closed,
    /// A desktop adapter stopped with an error.
    RunFailed(String),
}

/// The text of a notice.
pub open spec fn notice_text(n: Notice) -> Seq<char> {
    match n {
        Notice::Enabled => "Sober detected. Anti-AFK enabled."@,
        Notice::CannotAutoStart(e) => "Cannot auto-start: "@ + e@,
        Notice::Closed => "Sober closed. Anti-AFK disabled."@,
        Notice::RunFailed(e) => "Error: "@ + e@,
    }
}

impl Notice {
    /// The body of the desktop notification.
    pub fn text(&self) -> (t: String)
        ensures
            t@ == notice_text(*self),
    {
        match self {
            Notice::Enabled => "Sober detected. Anti-AFK enabled.".to_owned(),
            Notice::CannotAutoStart(e) => "Cannot auto-start: ".to_owned().concat(e.as_str()),
            Notice::Closed => "Sober closed. Anti-AFK disabled.".to_owned(),
            Notice::RunFailed(e) => "Error: ".to_owned().concat(e.as_str()),
        }
    }
}

/// What the process watch loop observed or finished.
pub enum WatchEvent {
    /// A Sober process is running.
    SoberRunning,
    /// No Sober process is running.
    SoberAbsent,
    /// The preflight that the last step asked for has this result.
    PreflightDone(Result<(), String>),
}

/// What the process watch loop must do next.
pub enum WatchAction {
    Nothing,
    /// Run the preflight on the current settings and report it back.
    RunPreflight,
    Notify(Notice),
}

/// The process watch loop: how many checks in a row found no Sober process.
pub struct Watchdog {
    pub absent_ticks: u64,
}

/// The automation starts on its own when Sober is seen: auto-start is on, it
/// is not running, and the user did not stop it by hand.
pub open spec fn auto_start_wanted(s: AppState) -> bool {
    s.auto_start && !s.running && !s.manually_stopped
}

/// The status the automation rests in when it is not running.
pub open spec fn idle_status(s: AppState) -> RuntimeStatus {
    if s.auto_start {
        RuntimeStatus::WaitingForSober
    } else {
        RuntimeStatus::Stopped
    }
}

/// How many absent checks in a row stop the automation.
pub open spec fn absent_limit() -> u64 {
    2
}

/// The effect of one watch step on the settings and the counter.
pub open spec fn watch_step(
    ticks: u64,
    s: AppState,
    event: WatchEvent,
    ticks2: u64,
    s2: AppState,
    action: WatchAction,
) -> bool {
    match event {
        WatchEvent::SoberRunning => {
            &&& ticks2 == 0
            &&& s2 == s
            &&& action == (if auto_start_wanted(s) {
                WatchAction::RunPreflight
            } else {
                WatchAction::Nothing
            })
        },
        WatchEvent::PreflightDone(outcome) => ticks2 == ticks && preflight_step(s, outcome, s2, action),
        WatchEvent::SoberAbsent => {
            &&& ticks2 == (if ticks < u64::MAX {
                (ticks + 1) as u64
            } else {
                ticks
            })
            &&& absent_step(ticks2, s, s2, action)
        },
    }
}

/// The part of a watch step that a finished preflight makes.
pub open spec fn preflight_step(s: AppState, outcome: Result<(), String>, s2: AppState, action: WatchAction) -> bool {
    match outcome {
        Ok(()) => {
            &&& s2 == AppState {
                running: true,
                runtime_status: RuntimeStatus::WaitingForSober,
                error_message: None,
                ..s
            }
            &&& action == WatchAction::Notify(Notice::Enabled)
        },
        Err(e) => {
            &&& error_update(s, e@, s2)
            &&& action matches WatchAction::Notify(Notice::CannotAutoStart(m)) && m@ == e@
        },
    }
}

/// The part of a watch step that an absent check makes, once the counter
/// reads `ticks2`.
pub open spec fn absent_step(ticks2: u64, s: AppState, s2: AppState, action: WatchAction) -> bool {
    if ticks2 < absent_limit() {
        s2 == s && action == WatchAction::Nothing
    } else if s.running {
        &&& s2 == AppState {
            running: false,
            manually_stopped: false,
            runtime_status: idle_status(s),
            error_message: None,
            ..s
        }
        &&& action == WatchAction::Notify(Notice::Closed)
    } else if s.manually_stopped {
        &&& s2 == AppState {
            manually_stopped: false,
            runtime_status: idle_status(s),
            error_message: None,
            ..s
        }
        &&& action == WatchAction::Nothing
    } else {
        s2 == s && action == WatchAction::Nothing
    }
}

fn after_preflight(state: &mut AppState, outcome: Result<(), String>) -> (action: WatchAction)
    ensures
        preflight_step(*old(state), outcome, *final(state), action),
        status_consistent(*old(state)) ==> status_consistent(*final(state)),
{
    match outcome {
        Ok(()) => {
            state.running = true;
            set_runtime_status(state, RuntimeStatus::WaitingForSober);
            WatchAction::Notify(Notice::Enabled)
        },
        Err(e) => {
            set_runtime_error(state, e.as_str());
            WatchAction::Notify(Notice::CannotAutoStart(e))
        },
    }
}

fn after_absent(state: &mut AppState, ticks: u64) -> (action: WatchAction)
    ensures
        absent_step(ticks, *old(state), *final(state), action),
        status_consistent(*old(state)) ==> status_consistent(*final(state)),
{
    if ticks < 2 {
        WatchAction::Nothing
    } else if state.running {
        state.running = false;
        state.manually_stopped = false;
        let next = if state.auto_start {
            RuntimeStatus::WaitingForSober
        } else {
            RuntimeStatus::Stopped
        };
        set_runtime_status(state, next);
        WatchAction::Notify(Notice::Closed)
    } else if state.manually_stopped {
        state.manually_stopped = false;
        state.runtime_status = if state.auto_start {
            RuntimeStatus::WaitingForSober
        } else {
            RuntimeStatus::Stopped
        };
        state.error_message = None;
        WatchAction::Nothing
    } else {
        WatchAction::Nothing
    }
}

impl Watchdog {
    pub fn new() -> (w: Watchdog)
        ensures
            w.absent_ticks == 0,
    {
        Watchdog { absent_ticks: 0 }
    }

    /// One step of the process watch loop on the shared settings.
    pub fn step(&mut self, state: &mut AppState, event: WatchEvent) -> (action: WatchAction)
        ensures
            watch_step(
                old(self).absent_ticks,
                *old(state),
                event,
                final(self).absent_ticks,
                *final(state),
                action,
            ),
            status_consistent(*old(state)) ==> status_consistent(*final(state)),
    {
        match event {
            WatchEvent::SoberRunning => {
                self.absent_ticks = 0;
                if state.auto_start && !state.running && !state.manually_stopped {
                    WatchAction::RunPreflight
                } else {
                    WatchAction::Nothing
                }
            },
            WatchEvent::PreflightDone(outcome) => after_preflight(state, outcome),
            WatchEvent::SoberAbsent => {
                self.absent_ticks = self.absent_ticks.saturating_add(1);
                after_absent(state, self.absent_ticks)
            },
        }
    }
}

/// The desktop adapter that drives the automation in a mode.
#[derive(Clone, Copy, Debug, PartialEq, Eq, Structural)]
pub enum Adapter {
    Hyprland,
    Kde,
}

/// The adapter for a desktop mode; modes other than 0 and 1 have none and
/// report this error.
pub fn adapter_for(mode: usize) -> (r: Result<Adapter, String>)
    ensures
        mode == 0 ==> r == Ok::<Adapter, String>(Adapter::Hyprland),
        mode == 1 ==> r == Ok::<Adapter, String>(Adapter::Kde),
        mode > 1 ==> (r matches Err(e) && e@ == "This desktop is not supported yet."@),
{
    if mode == 0 {
        Ok(Adapter::Hyprland)
    } else if mode == 1 {
        Ok(Adapter::Kde)
    } else {
        Err("This desktop is not supported yet.".to_owned())
    }
}

/// Records how a run of the desktop adapter ended: an error stops the
/// automation with that error and asks for a notice.
pub fn finish_run(state: &mut AppState, outcome: Result<(), String>) -> (n: Option<Notice>)
    ensures
        outcome is Ok ==> *final(state) == *old(state) && n is None,
        status_consistent(*old(state)) ==> status_consistent(*final(state)),
        outcome matches Err(e) ==> {
            &&& error_update(*old(state), e@, *final(state))
            &&& n matches Some(Notice::RunFailed(m)) && m@ == e@
        },
{
    match outcome {
        Ok(()) => None,
        Err(e) => {
            set_runtime_error(state, e.as_str());
            Some(Notice::RunFailed(e))
        },
    }
}

/// One absent check alone changes nothing: the automation stops only after
/// two checks in a row found no Sober process.
pub proof fn lemma_single_absence_is_tolerated(
    s: AppState,
    ticks2: u64,
    s2: AppState,
    action: WatchAction,
)
    requires
        watch_step(0, s, WatchEvent::SoberAbsent, ticks2, s2, action),
    ensures
        s2 == s,
        action == WatchAction::Nothing,
{
}

/// A user who stopped the automation by hand is not overruled by auto-start
/// while Sober keeps running.
pub proof fn lemma_manual_stop_blocks_auto_start(
    ticks: u64,
    s: AppState,
    ticks2: u64,
    s2: AppState,
    action: WatchAction,
)
    requires
        s.manually_stopped,
        watch_step(ticks, s, WatchEvent::SoberRunning, ticks2, s2, action),
    ensures
        action == WatchAction::Nothing,
        s2 == s,
{
}

/// Once Sober is gone long enough, a stop by hand is forgotten, so that the
/// next start of Sober can start the automation again.
pub proof fn lemma_absence_rearms_auto_start(
    ticks: u64,
    s: AppState,
    ticks2: u64,
    s2: AppState,
    action: WatchAction,
)
    requires
        ticks >= 1,
        watch_step(ticks, s, WatchEvent::SoberAbsent, ticks2, s2, action),
    ensures
        !s2.running,
        !s2.manually_stopped,
        s2.auto_start ==> auto_start_wanted(s2),
{
}

/// A second absent check in a row stops a running automation and tells the
/// user so.
pub proof fn lemma_second_absence_stops(
    s: AppState,
    ticks2: u64,
    s2: AppState,
    action: WatchAction,
)
    requires
        s.running,
        watch_step(1, s, WatchEvent::SoberAbsent, ticks2, s2, action),
    ensures
        !s2.running,
        s2.runtime_status == idle_status(s),
        action == WatchAction::Notify(Notice::Closed),
{
}


/// Seeing Sober starts nothing unless auto-start is on, the automation is not
/// running and the user did not stop it by hand; then it asks for the
/// preflight, and nothing else changes. A preflight is the only way the watch
/// loop sets `running`.
pub proof fn lemma_auto_start_only_when_enabled(
    ticks: u64,
    s: AppState,
    ticks2: u64,
    s2: AppState,
    action: WatchAction,
)
    requires
        watch_step(ticks, s, WatchEvent::SoberRunning, ticks2, s2, action),
    ensures
        s2 == s,
        !s.auto_start ==> action == WatchAction::Nothing,
        s.running ==> action == WatchAction::Nothing,
        (s.auto_start && !s.running && !s.manually_stopped) <==> action == WatchAction::RunPreflight,
{
}

/// No watch step turns the automation on except a passing preflight.
pub proof fn lemma_only_preflight_starts(
    ticks: u64,
    s: AppState,
    event: WatchEvent,
    ticks2: u64,
    s2: AppState,
    action: WatchAction,
)
    requires
        watch_step(ticks, s, event, ticks2, s2, action),
        !s.running,
        s2.running,
    ensures
        event matches WatchEvent::PreflightDone(outcome) && outcome is Ok,
        action == WatchAction::Notify(Notice::Enabled),
{
}

} // verus!
