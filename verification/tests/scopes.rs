use antiafk::procs::{cpu_quota_property, scope_from_cgroup, sober_pids};
use antiafk::scopes::{
    cap_plan, cpu_quota, focus_matters, is_target_scope, reset_scopes, should_cap, target_scopes,
    CapPlan, ScopeLimits,
};
use antiafk::state::AppState;

fn strings(v: &[&str]) -> Vec<String> {
    v.iter().map(|s| s.to_string()).collect()
}

#[test]
fn quota_is_clamped() {
    assert_eq!(cpu_quota(0), 3);
    assert_eq!(cpu_quota(1), 3);
    assert_eq!(cpu_quota(30), 30);
    assert_eq!(cpu_quota(99), 99);
    assert_eq!(cpu_quota(150), 99);
}

#[test]
fn capping_conditions() {
    let mut s = AppState::default();
    s.fps_capper = true;
    s.running = true;
    assert!(should_cap(&s));
    s.fps_limit = 0;
    assert!(!should_cap(&s));
    s.fps_limit = 30;
    s.action_active = true;
    assert!(!should_cap(&s));
}

#[test]
fn game_scopes_are_picked() {
    assert!(is_target_scope("app-flatpak-org.vinegarhq.Sober-12.scope"));
    assert!(is_target_scope("sober.service"));
    assert!(!is_target_scope("session-3.scope"));
    assert_eq!(
        target_scopes(&strings(&["session-3.scope", "app-x.scope", "sober.scope"])),
        strings(&["app-x.scope", "sober.scope"])
    );
}

#[test]
fn quotas_follow_the_targets() {
    let mut limits = ScopeLimits::new();
    let plan = limits.apply_quota(&strings(&["a.scope", "b.scope", "a.scope"]), 30);
    assert!(plan.clear.is_empty());
    assert_eq!(plan.set, strings(&["a.scope", "b.scope"]));
    assert_eq!(plan.quota, 30);
    assert_eq!(limits.get("a.scope"), Some(30));
    assert_eq!(limits.get("b.scope"), Some(30));

    let again = limits.apply_quota(&strings(&["a.scope", "b.scope"]), 30);
    assert!(again.clear.is_empty());
    assert!(again.set.is_empty());

    let next = limits.apply_quota(&strings(&["b.scope", "c.scope"]), 50);
    assert_eq!(next.clear, strings(&["a.scope"]));
    assert_eq!(next.set, strings(&["b.scope", "c.scope"]));
    assert_eq!(limits.get("a.scope"), None);
    assert_eq!(limits.get("c.scope"), Some(50));

    let mut cleared = reset_scopes(&mut limits);
    cleared.sort();
    assert_eq!(cleared, strings(&["b.scope", "c.scope"]));
    assert_eq!(limits.get("b.scope"), None);
    assert!(reset_scopes(&mut limits).is_empty());
}

#[test]
fn quota_property_text() {
    assert_eq!(cpu_quota_property(Some(30)), "CPUQuota=30%");
    assert_eq!(cpu_quota_property(Some(3)), "CPUQuota=3%");
    assert_eq!(cpu_quota_property(Some(1234567)), "CPUQuota=1234567%");
    assert_eq!(cpu_quota_property(None), "CPUQuota=");
}

#[test]
fn scope_of_a_flatpak_process() {
    let text = "0::/user.slice/user-1000.slice/user@1000.service/app.slice/app-flatpak-org.vinegarhq.Sober-1234.scope\n";
    assert_eq!(
        scope_from_cgroup(text),
        Some("app-flatpak-org.vinegarhq.Sober-1234.scope".to_string())
    );
}

#[test]
fn scope_lines_without_a_unit_are_skipped() {
    let text = "12:cpu:/foo\n0::/user.slice/user-1000.slice\n1::/system.slice/sober.service::extra\n";
    assert_eq!(scope_from_cgroup(text), Some("sober.service".to_string()));
    assert_eq!(scope_from_cgroup("0::/\n"), None);
    assert_eq!(scope_from_cgroup(""), None);
    assert_eq!(scope_from_cgroup("0::plain.scope"), Some("plain.scope".to_string()));
}

#[test]
fn pids_are_trimmed_and_filtered() {
    assert_eq!(sober_pids("123\n 456 \n\n789\r\n", "456"), strings(&["123", "789"]));
    assert_eq!(sober_pids("", "1"), Vec::<String>::new());
    assert_eq!(sober_pids("\u{a0}42\u{3000}", "1"), strings(&["42"]));
}

#[test]
fn capper_rounds() {
    let mut s = AppState::default();
    assert_eq!(cap_plan(&s, false), CapPlan::Release);
    s.fps_capper = true;
    s.running = true;
    s.fps_limit = 120;
    assert_eq!(cap_plan(&s, true), CapPlan::Limit(99));
    assert!(!focus_matters(&s));
    s.stop_limit_on_focus = true;
    assert!(focus_matters(&s));
    assert_eq!(cap_plan(&s, true), CapPlan::Release);
    assert_eq!(cap_plan(&s, false), CapPlan::Limit(99));
}
