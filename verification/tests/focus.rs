use antiafk::focus::{
    focus_from_journal, focus_step, hyprland_focus, kwin_script_object, FocusEvent, FocusStep,
};
use antiafk::state::DesktopEnv;

fn env(hyprland: bool, desktop: &str) -> DesktopEnv {
    DesktopEnv {
        hyprland_instance_signature: hyprland,
        xdg_current_desktop: Some(desktop.to_string()),
        kde_full_session: false,
        wayland_display: true,
        xdg_session_type: Some("wayland".to_string()),
    }
}

/// Drives the focus check with fixed outside results.
fn run_focus(
    env: &DesktopEnv,
    hyprctl: Option<&[u8]>,
    tool: Option<&'static str>,
    loaded: Option<&str>,
    journal: Option<&str>,
) -> (bool, Vec<String>) {
    let mut trace = Vec::new();
    let mut event = FocusEvent::Begin;
    loop {
        match focus_step(env, event) {
            FocusStep::Answer(b) => return (b, trace),
            FocusStep::QueryHyprland => {
                trace.push("hyprctl".to_string());
                event = FocusEvent::Hyprctl(hyprctl.map(|o| o.to_vec()));
            }
            FocusStep::FindQdbus => {
                trace.push("find".to_string());
                event = FocusEvent::Qdbus(tool);
            }
            FocusStep::LoadScript(t) => {
                trace.push(format!("load {}", t));
                event = FocusEvent::Loaded(t, loaded.map(|l| l.to_string()));
            }
            FocusStep::ReadJournal(t, obj) => {
                trace.push(format!("run {} {}", t, obj));
                event = FocusEvent::Journal(journal.map(|j| j.to_string()));
            }
        }
    }
}


#[test]
fn hyprland_window_class() {
    assert!(hyprland_focus(br#"{"class":"org.vinegarhq.Sober","title":"Sober"}"#));
    assert!(hyprland_focus(br#"{"class":"ROBLOX"}"#));
    assert!(!hyprland_focus(br#"{"class":"firefox"}"#));
    assert!(!hyprland_focus(br#"{"title":"sober"}"#));
    assert!(!hyprland_focus(b"not json"));
    assert!(!hyprland_focus(b""));
}

#[test]
fn last_focus_report_wins() {
    let text = "x\nANTIAFK_FOCUS_STATE:true\nother\nfoo ANTIAFK_FOCUS_STATE: false \nbar\n";
    assert!(!focus_from_journal(text));
    let text = "ANTIAFK_FOCUS_STATE:false\njs: ANTIAFK_FOCUS_STATE: true\r\n";
    assert!(focus_from_journal(text));
    assert!(!focus_from_journal("nothing here\n"));
    assert!(!focus_from_journal(""));
    assert!(!focus_from_journal("ANTIAFK_FOCUS_STATE:truest"));
}

#[test]
fn script_object_path() {
    assert_eq!(kwin_script_object(" 42\n"), Some("/Scripting/Script42".to_string()));
    assert_eq!(kwin_script_object("+7"), Some("/Scripting/Script7".to_string()));
    assert_eq!(kwin_script_object("-3"), Some("/Scripting/Script-3".to_string()));
    assert_eq!(kwin_script_object("007"), Some("/Scripting/Script7".to_string()));
    assert_eq!(
        kwin_script_object("-2147483648"),
        Some("/Scripting/Script-2147483648".to_string())
    );
    assert_eq!(kwin_script_object("2147483648"), None);
    assert_eq!(kwin_script_object("99999999999999999999"), None);
    assert_eq!(kwin_script_object("abc"), None);
    assert_eq!(kwin_script_object("-"), None);
    assert_eq!(kwin_script_object(""), None);
    assert_eq!(kwin_script_object("1 2"), None);
}

#[test]
fn kde_focus_sequence() {
    let kde = env(false, "KDE");
    let yes = "x\nANTIAFK_FOCUS_STATE: true\n";
    let (b, trace) = run_focus(&kde, None, Some("qdbus6"), Some(" 7\n"), Some(yes));
    assert!(b);
    assert_eq!(trace, vec!["find", "load qdbus6", "run qdbus6 /Scripting/Script7"]);
    assert!(!run_focus(&kde, None, Some("qdbus"), Some("7"), Some("ANTIAFK_FOCUS_STATE:false")).0);
    assert!(!run_focus(&kde, None, None, Some("7"), Some(yes)).0);
    assert!(!run_focus(&kde, None, Some("qdbus"), Some("Error: no such object"), Some(yes)).0);
    assert!(!run_focus(&kde, None, Some("qdbus"), None, Some(yes)).0);
    assert!(!run_focus(&kde, None, Some("qdbus"), Some("-3"), None).0);
    let (b, trace) = run_focus(&kde, None, Some("qdbus"), Some("-3"), Some(yes));
    assert!(b);
    assert_eq!(trace[2], "run qdbus /Scripting/Script-3");
}

#[test]
fn hyprland_focus_sequence() {
    let hypr = env(true, "KDE");
    let (b, trace) = run_focus(&hypr, Some(br#"{"class":"sober"}"#), None, None, None);
    assert!(b);
    assert_eq!(trace, vec!["hyprctl"]);
    assert!(!run_focus(&hypr, None, None, None, None).0);
    assert!(!run_focus(&hypr, Some(br#"{"class":"kitty"}"#), None, None, None).0);
}

#[test]
fn other_desktop_is_never_focused() {
    let (b, trace) = run_focus(&env(false, "GNOME"), Some(br#"{"class":"sober"}"#), Some("qdbus"), Some("1"), Some("ANTIAFK_FOCUS_STATE:true"));
    assert!(!b);
    assert!(trace.is_empty());
}
