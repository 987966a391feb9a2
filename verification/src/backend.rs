use vstd::prelude::*;
use crate::state::{AppState, DesktopEnv, hyprland_session, kde_session};
use crate::text::{join, join_with, texts};

verus! {

/// Whether the session is Hyprland.
pub fn is_hyprland(env: &DesktopEnv) -> (b: bool)
    ensures
        b == hyprland_session(*env),
{
    AppState::is_hyprland(env)
}

/// Whether the session is KDE Plasma.
pub fn is_kde(env: &DesktopEnv) -> (b: bool)
    ensures
        b == kde_session(*env),
{
    AppState::is_kde(env)
}

/// The D-Bus command line tool to talk to KWin with: `qdbus6` where it works,
/// else `qdbus` where that works, else none.
pub fn find_qdbus(qdbus6_works: bool, qdbus_works: bool) -> (tool: Option<&'static str>)
    ensures
        qdbus6_works ==> tool == Some("qdbus6"),
        !qdbus6_works && qdbus_works ==> tool == Some("qdbus"),
        !qdbus6_works && !qdbus_works ==> tool is None,
{
    if qdbus6_works {
        Some("qdbus6")
    } else if qdbus_works {
        Some("qdbus")
    } else {
        None
    }
}

/// A check of the host that runs a tool or opens a device.
#[derive(Clone, Copy, Debug, PartialEq, Eq, Structural)]
pub enum Probe {
    /// `hyprctl version` succeeds.
    Hyprctl,
    /// `grim -h` succeeds.
    Grim,
    /// `qdbus6 --version` succeeds.
    Qdbus6,
    /// `qdbus --version` succeeds.
    Qdbus,
    /// `journalctl --version` succeeds.
    Journalctl,
    /// `spectacle --version` succeeds.
    Spectacle,
    /// `/dev/uinput` opens for writing.
    Uinput,
}

/// The outcome of each host check run so far (`None` where it was not run).
pub struct HostProbe {
    pub hyprctl: Option<bool>,
    pub grim: Option<bool>,
    pub qdbus6: Option<bool>,
    pub qdbus: Option<bool>,
    pub journalctl: Option<bool>,
    pub spectacle: Option<bool>,
    pub uinput: Option<bool>,
}

/// A check that ran and passed.
pub open spec fn worked(o: Option<bool>) -> bool {
    o == Some(true)
}

/// The outcome recorded for a check.
pub open spec fn outcome_of(p: HostProbe, probe: Probe) -> Option<bool> {
    match probe {
        Probe::Hyprctl => p.hyprctl,
        Probe::Grim => p.grim,
        Probe::Qdbus6 => p.qdbus6,
        Probe::Qdbus => p.qdbus,
        Probe::Journalctl => p.journalctl,
        Probe::Spectacle => p.spectacle,
        Probe::Uinput => p.uinput,
    }
}

impl HostProbe {
    /// No check has run yet.
    pub fn new() -> (p: HostProbe)
        ensures
            forall|q: Probe| outcome_of(p, q) is None,
    {
        HostProbe {
            hyprctl: None,
            grim: None,
            qdbus6: None,
            qdbus: None,
            journalctl: None,
            spectacle: None,
            uinput: None,
        }
    }

    /// Records the outcome of a check; the others stay as they were.
    pub fn record(&mut self, probe: Probe, ok: bool)
        ensures
            outcome_of(*final(self), probe) == Some(ok),
            forall|q: Probe| q != probe ==> outcome_of(*final(self), q) == outcome_of(*old(self), q),
    {
        match probe {
            Probe::Hyprctl => self.hyprctl = Some(ok),
            Probe::Grim => self.grim = Some(ok),
            Probe::Qdbus6 => self.qdbus6 = Some(ok),
            Probe::Qdbus => self.qdbus = Some(ok),
            Probe::Journalctl => self.journalctl = Some(ok),
            Probe::Spectacle => self.spectacle = Some(ok),
            Probe::Uinput => self.uinput = Some(ok),
        }
    }
}

/// The checks that the preflight needs, as it runs them: `hyprctl` only on
/// Hyprland, `grim` only for Auto Reconnect in the Hyprland mode, the KDE tools
/// only on KDE (`qdbus` only where `qdbus6` failed, `spectacle` only for Auto
/// Reconnect), and `/dev/uinput` always.
pub open spec fn preflight_needs(s: AppState, env: DesktopEnv, p: HostProbe, probe: Probe) -> bool {
    match probe {
        Probe::Hyprctl => s.mode == 0 && hyprland_session(env),
        Probe::Grim => s.mode == 0 && s.auto_reconnect,
        Probe::Qdbus6 => s.mode == 1 && kde_session(env),
        Probe::Qdbus => s.mode == 1 && kde_session(env) && p.qdbus6 == Some(false),
        Probe::Journalctl => s.mode == 1 && kde_session(env),
        Probe::Spectacle => s.mode == 1 && kde_session(env) && s.auto_reconnect,
        Probe::Uinput => true,
    }
}

/// The first check, in the order the preflight runs them, that is needed and
/// has not run yet.
pub open spec fn first_missing(needs: spec_fn(Probe) -> bool, p: HostProbe) -> Option<Probe> {
    if needs(Probe::Hyprctl) && p.hyprctl is None {
        Some(Probe::Hyprctl)
    } else if needs(Probe::Grim) && p.grim is None {
        Some(Probe::Grim)
    } else if needs(Probe::Qdbus6) && p.qdbus6 is None {
        Some(Probe::Qdbus6)
    } else if needs(Probe::Qdbus) && p.qdbus is None {
        Some(Probe::Qdbus)
    } else if needs(Probe::Journalctl) && p.journalctl is None {
        Some(Probe::Journalctl)
    } else if needs(Probe::Spectacle) && p.spectacle is None {
        Some(Probe::Spectacle)
    } else if needs(Probe::Uinput) && p.uinput is None {
        Some(Probe::Uinput)
    } else {
        None
    }
}

/// The next check the preflight runs, or `None` once every check it needs
/// has an outcome.
pub fn preflight_next_probe(settings: &AppState, env: &DesktopEnv, probe: &HostProbe) -> (r: Option<Probe>)
    ensures
        r == first_missing(|q: Probe| preflight_needs(*settings, *env, *probe, q), *probe),
        r matches Some(q) ==> preflight_needs(*settings, *env, *probe, q) && outcome_of(*probe, q) is None,
        r is None ==> forall|q: Probe| preflight_needs(*settings, *env, *probe, q) ==> outcome_of(*probe, q) is Some,
{
    let hypr = is_hyprland(env);
    let kde = is_kde(env);
    let m0 = settings.mode == 0;
    let m1 = settings.mode == 1 && kde;
    if m0 && hypr && probe.hyprctl.is_none() {
        Some(Probe::Hyprctl)
    } else if m0 && settings.auto_reconnect && probe.grim.is_none() {
        Some(Probe::Grim)
    } else if m1 && probe.qdbus6.is_none() {
        Some(Probe::Qdbus6)
    } else if m1 && probe.qdbus6 == Some(false) && probe.qdbus.is_none() {
        Some(Probe::Qdbus)
    } else if m1 && probe.journalctl.is_none() {
        Some(Probe::Journalctl)
    } else if m1 && settings.auto_reconnect && probe.spectacle.is_none() {
        Some(Probe::Spectacle)
    } else if probe.uinput.is_none() {
        Some(Probe::Uinput)
    } else {
        proof {
            assert forall|q: Probe| preflight_needs(*settings, *env, *probe, q) implies outcome_of(*probe, q) is Some by {
                match q {
                    Probe::Hyprctl => {},
                    Probe::Grim => {},
                    Probe::Qdbus6 => {},
                    Probe::Qdbus => {},
                    Probe::Journalctl => {},
                    Probe::Spectacle => {},
                    Probe::Uinput => {},
                }
            }
        }
        None
    }
}

/// A Wayland session: `WAYLAND_DISPLAY` is set or `XDG_SESSION_TYPE` is `wayland`.
pub open spec fn wayland_session(env: DesktopEnv) -> bool {
    env.wayland_display || (env.xdg_session_type matches Some(t) && t@ == "wayland"@)
}

pub open spec fn issue_if(cond: bool, msg: Seq<char>) -> Seq<Seq<char>> {
    if cond {
        seq![msg]
    } else {
        Seq::empty()
    }
}

/// The problems that keep the automation from starting, in the order in which
/// they are reported.
pub open spec fn preflight_issues(s: AppState, env: DesktopEnv, p: HostProbe) -> Seq<Seq<char>> {
    let desktop = if s.mode == 0 {
        (if !hyprland_session(env) {
            seq!["This desktop is not supported. Hyprland is required."@]
        } else {
            issue_if(!worked(p.hyprctl), "The hyprctl command is not available."@)
        }) + issue_if(
            s.auto_reconnect && !worked(p.grim),
            "The grim command is required for Auto Reconnect."@,
        )
    } else if s.mode == 1 {
        if !kde_session(env) {
            seq!["This desktop is not supported. KDE Plasma 6 is required."@]
        } else {
            issue_if(!wayland_session(env), "KDE Plasma 6 in a Wayland session is required."@)
                + issue_if(
                !worked(p.qdbus6) && !worked(p.qdbus),
                "The qdbus6 or qdbus command is not available."@,
            ) + issue_if(
                !worked(p.journalctl),
                "The journalctl command is required for window detection."@,
            ) + issue_if(
                s.auto_reconnect && !worked(p.spectacle),
                "The spectacle command is required for Auto Reconnect."@,
            )
        }
    } else {
        seq!["This desktop is not supported yet. Use Hyprland or KDE Plasma 6."@]
    };
    desktop + issue_if(
        !worked(p.uinput),
        "Access to /dev/uinput is denied. Run the permission fix in Settings."@,
    )
}

fn note_issue(issues: &mut Vec<String>, cond: bool, msg: &str)
    ensures
        texts(final(issues)@) == texts(old(issues)@) + issue_if(cond, msg@),
{
    if cond {
        issues.push(msg.to_owned());
        assert(texts(issues@) =~= texts(old(issues)@) + seq![msg@]);
    } else {
        assert(texts(issues@) =~= texts(old(issues)@) + issue_if(cond, msg@));
    }
}

/// Whether the automation can start in the chosen mode: `Ok` where nothing
/// is missing, else every problem found, one per line.
pub fn preflight(settings: &AppState, env: &DesktopEnv, probe: &HostProbe) -> (r: Result<(), String>)
    ensures
        r is Ok <==> preflight_issues(*settings, *env, *probe).len() == 0,
        r matches Err(e) ==> e@ == join(preflight_issues(*settings, *env, *probe), "\n"@),
{
    let mut issues: Vec<String> = Vec::new();
    let ghost start = texts(issues@);
    assert(start =~= Seq::<Seq<char>>::empty());
    if settings.mode == 0 {
        if !is_hyprland(env) {
            note_issue(&mut issues, true, "This desktop is not supported. Hyprland is required.");
        } else {
            note_issue(&mut issues, probe.hyprctl != Some(true), "The hyprctl command is not available.");
        }
        note_issue(
            &mut issues,
            settings.auto_reconnect && probe.grim != Some(true),
            "The grim command is required for Auto Reconnect.",
        );
    } else if settings.mode == 1 {
        if !is_kde(env) {
            note_issue(
                &mut issues,
                true,
                "This desktop is not supported. KDE Plasma 6 is required.",
            );
        } else {
            let wayland = env.wayland_display || match &env.xdg_session_type {
                Some(t) => crate::text::str_eq(t.as_str(), "wayland"),
                None => false,
            };
            note_issue(&mut issues, !wayland, "KDE Plasma 6 in a Wayland session is required.");
            note_issue(
                &mut issues,
                find_qdbus(probe.qdbus6 == Some(true), probe.qdbus == Some(true)).is_none(),
                "The qdbus6 or qdbus command is not available.",
            );
            note_issue(
                &mut issues,
                probe.journalctl != Some(true),
                "The journalctl command is required for window detection.",
            );
            note_issue(
                &mut issues,
                settings.auto_reconnect && probe.spectacle != Some(true),
                "The spectacle command is required for Auto Reconnect.",
            );
        }
    } else {
        note_issue(
            &mut issues,
            true,
            "This desktop is not supported yet. Use Hyprland or KDE Plasma 6.",
        );
    }
    note_issue(
        &mut issues,
        probe.uinput != Some(true),
        "Access to /dev/uinput is denied. Run the permission fix in Settings.",
    );
    assert(texts(issues@) =~= preflight_issues(*settings, *env, *probe));
    if issues.len() == 0 {
        Ok(())
    } else {
        Err(join_with(&issues, "\n"))
    }
}

/// A desktop mode other than Hyprland (0) and KDE Plasma (1) never passes.
pub proof fn lemma_unsupported_mode_fails(s: AppState, env: DesktopEnv, p: HostProbe)
    requires
        s.mode > 1,
    ensures
        preflight_issues(s, env, p).len() > 0,
{
}

/// Without write access to `/dev/uinput` the preflight never passes.
pub proof fn lemma_uinput_required(s: AppState, env: DesktopEnv, p: HostProbe)
    requires
        !worked(p.uinput),
    ensures
        preflight_issues(s, env, p).len() > 0,
{
}

/// On a supported desktop with every tool present and uinput open, the
/// preflight passes.
pub proof fn lemma_ready_host_passes(s: AppState, env: DesktopEnv, p: HostProbe)
    requires
        s.mode == 0 && hyprland_session(env) || s.mode == 1 && kde_session(env) && wayland_session(env),
        worked(p.hyprctl),
        worked(p.grim),
        worked(p.qdbus6),
        worked(p.journalctl),
        worked(p.spectacle),
        worked(p.uinput),
    ensures
        preflight_issues(s, env, p).len() == 0,
{
}

/// The preflight runs `hyprctl` only in the Hyprland mode on Hyprland, and
/// `qdbus` only once `qdbus6` has failed.
pub proof fn lemma_preflight_probes_lazily(s: AppState, env: DesktopEnv, p: HostProbe)
    ensures
        !(s.mode == 0 && hyprland_session(env)) ==> first_missing(
            |q: Probe| preflight_needs(s, env, p, q),
            p,
        ) != Some(Probe::Hyprctl),
        p.qdbus6 != Some(false) ==> first_missing(|q: Probe| preflight_needs(s, env, p, q), p)
            != Some(Probe::Qdbus),
{
}

/// The report ends with the uinput sentence exactly when `/dev/uinput` could
/// not be opened.
pub proof fn lemma_uinput_line_last(s: AppState, env: DesktopEnv, p: HostProbe)
    ensures
        (preflight_issues(s, env, p).len() > 0 && preflight_issues(s, env, p).last()
            == "Access to /dev/uinput is denied. Run the permission fix in Settings."@) <==> !worked(
            p.uinput,
        ),
{
    reveal_strlit("Access to /dev/uinput is denied. Run the permission fix in Settings.");
    reveal_strlit("This desktop is not supported. Hyprland is required.");
    reveal_strlit("The hyprctl command is not available.");
    reveal_strlit("The grim command is required for Auto Reconnect.");
    reveal_strlit("This desktop is not supported. KDE Plasma 6 is required.");
    reveal_strlit("KDE Plasma 6 in a Wayland session is required.");
    reveal_strlit("The qdbus6 or qdbus command is not available.");
    reveal_strlit("The journalctl command is required for window detection.");
    reveal_strlit("The spectacle command is required for Auto Reconnect.");
    reveal_strlit("This desktop is not supported yet. Use Hyprland or KDE Plasma 6.");
    let msgs = preflight_issues(s, env, p);
    if worked(p.uinput) && msgs.len() > 0 {
        assert(msgs.last()[0] != 'A');
    }
}


/// Auto Reconnect is what needs `grim` and `spectacle`: with it off, the
/// preflight never reports either tool, and its outcome does not depend on
/// them. So the Hyprland mode on Hyprland with `hyprctl` and `/dev/uinput`
/// working passes whatever `grim` gave.
pub proof fn lemma_screenshot_tools_only_for_reconnect(s: AppState, env: DesktopEnv, p: HostProbe, grim: Option<bool>, spectacle: Option<bool>)
    requires
        !s.auto_reconnect,
    ensures
        !preflight_issues(s, env, p).contains("The grim command is required for Auto Reconnect."@),
        !preflight_issues(s, env, p).contains("The spectacle command is required for Auto Reconnect."@),
        preflight_issues(s, env, HostProbe { grim, spectacle, ..p }) == preflight_issues(s, env, p),
        s.mode == 0 && hyprland_session(env) && worked(p.hyprctl) && worked(p.uinput)
            ==> preflight_issues(s, env, p).len() == 0,
{
    reveal_strlit("Access to /dev/uinput is denied. Run the permission fix in Settings.");
    reveal_strlit("This desktop is not supported. Hyprland is required.");
    reveal_strlit("The hyprctl command is not available.");
    reveal_strlit("The grim command is required for Auto Reconnect.");
    reveal_strlit("This desktop is not supported. KDE Plasma 6 is required.");
    reveal_strlit("KDE Plasma 6 in a Wayland session is required.");
    reveal_strlit("The qdbus6 or qdbus command is not available.");
    reveal_strlit("The journalctl command is required for window detection.");
    reveal_strlit("The spectacle command is required for Auto Reconnect.");
    reveal_strlit("This desktop is not supported yet. Use Hyprland or KDE Plasma 6.");
    let msgs = preflight_issues(s, env, p);
    assert forall|i: int| 0 <= i < msgs.len() implies msgs[i] != "The grim command is required for Auto Reconnect."@
        && msgs[i] != "The spectacle command is required for Auto Reconnect."@ by {
        assert(msgs[i].len() != 49 || msgs[i][4] != 'g');
        assert(msgs[i].len() != 54 || msgs[i][4] != 's');
    }
}

/// With Auto Reconnect on, a missing screenshot tool of the chosen desktop
/// is reported.
pub proof fn lemma_reconnect_needs_screenshot_tool(s: AppState, env: DesktopEnv, p: HostProbe)
    requires
        s.auto_reconnect,
    ensures
        s.mode == 0 && !worked(p.grim) ==> preflight_issues(s, env, p).contains(
            "The grim command is required for Auto Reconnect."@,
        ),
        s.mode == 1 && kde_session(env) && !worked(p.spectacle) ==> preflight_issues(s, env, p).contains(
            "The spectacle command is required for Auto Reconnect."@,
        ),
{
    let msgs = preflight_issues(s, env, p);
    let tail = issue_if(
        !worked(p.uinput),
        "Access to /dev/uinput is denied. Run the permission fix in Settings."@,
    );
    if s.mode == 0 && !worked(p.grim) {
        let a = if !hyprland_session(env) {
            seq!["This desktop is not supported. Hyprland is required."@]
        } else {
            issue_if(!worked(p.hyprctl), "The hyprctl command is not available."@)
        };
        let g = "The grim command is required for Auto Reconnect."@;
        assert(msgs == a + seq![g] + tail);
        assert(msgs[a.len() as int] == g);
    }
    if s.mode == 1 && kde_session(env) && !worked(p.spectacle) {
        let a = issue_if(!wayland_session(env), "KDE Plasma 6 in a Wayland session is required."@)
            + issue_if(
            !worked(p.qdbus6) && !worked(p.qdbus),
            "The qdbus6 or qdbus command is not available."@,
        ) + issue_if(
            !worked(p.journalctl),
            "The journalctl command is required for window detection."@,
        );
        let g = "The spectacle command is required for Auto Reconnect."@;
        assert(msgs == a + seq![g] + tail);
        assert(msgs[a.len() as int] == g);
    }
}


/// A screenshot tool that works is never reported as missing, and the mode
/// not chosen never asks for the other desktop's tool.
pub proof fn lemma_working_screenshot_tool_not_reported(s: AppState, env: DesktopEnv, p: HostProbe)
    ensures
        worked(p.grim) || s.mode != 0 ==> !preflight_issues(s, env, p).contains(
            "The grim command is required for Auto Reconnect."@,
        ),
        worked(p.spectacle) || s.mode != 1 ==> !preflight_issues(s, env, p).contains(
            "The spectacle command is required for Auto Reconnect."@,
        ),
{
    reveal_strlit("Access to /dev/uinput is denied. Run the permission fix in Settings.");
    reveal_strlit("This desktop is not supported. Hyprland is required.");
    reveal_strlit("The hyprctl command is not available.");
    reveal_strlit("The grim command is required for Auto Reconnect.");
    reveal_strlit("This desktop is not supported. KDE Plasma 6 is required.");
    reveal_strlit("KDE Plasma 6 in a Wayland session is required.");
    reveal_strlit("The qdbus6 or qdbus command is not available.");
    reveal_strlit("The journalctl command is required for window detection.");
    reveal_strlit("The spectacle command is required for Auto Reconnect.");
    reveal_strlit("This desktop is not supported yet. Use Hyprland or KDE Plasma 6.");
    let msgs = preflight_issues(s, env, p);
    if worked(p.grim) || s.mode != 0 {
        assert forall|i: int| 0 <= i < msgs.len() implies msgs[i] != "The grim command is required for Auto Reconnect."@ by {
            assert(msgs[i].len() != 49 || msgs[i][4] != 'g');
        }
    }
    if worked(p.spectacle) || s.mode != 1 {
        assert forall|i: int| 0 <= i < msgs.len() implies msgs[i] != "The spectacle command is required for Auto Reconnect."@ by {
            assert(msgs[i].len() != 54 || msgs[i][4] != 's');
        }
    }
}

} // verus!
