use antiafk::config::{merge_legacy_stealth, repair_legacy_config, ConfigRepair};

const DEFAULT_JSON: &str = r#"{"running":false,"jump":true,"walk":false,"spin_jiggle":false,"interval_seq":240,"mode":0,"auto_start":false,"multi_instance":false,"user_safe":false,"auto_reconnect":false,"fps_capper":false,"fps_limit":30,"stop_limit_on_focus":false,"stealth":false,"last_run_version":null,"shown_warning":false}"#;

fn object(text: &str) -> serde_json::Map<String, serde_json::Value> {
    match serde_json::from_str::<serde_json::Value>(text).unwrap() {
        serde_json::Value::Object(m) => m,
        _ => panic!("not an object"),
    }
}

#[test]
fn legacy_duplicate_hides_game_is_tolerated() {
    let mut config = object(DEFAULT_JSON);
    config.insert("hides_game".to_string(), serde_json::Value::Bool(true));
    let text = serde_json::Value::Object(config).to_string();
    match repair_legacy_config(&text) {
        ConfigRepair::Repaired(m) => {
            assert!(!m.contains_key("stealth"));
            assert_eq!(m.get("hides_game"), Some(&serde_json::Value::Bool(true)));
            assert_eq!(m.get("interval_seq"), Some(&serde_json::Value::from(240)));
        }
        _ => panic!("expected a repaired object"),
    }
}

#[test]
fn either_flag_enables_hide_game() {
    let mut m = object(r#"{"stealth":true,"hides_game":false}"#);
    merge_legacy_stealth(&mut m);
    assert_eq!(m.len(), 1);
    assert_eq!(m.get("hides_game"), Some(&serde_json::Value::Bool(true)));

    let mut m = object(r#"{"stealth":"yes","hides_game":null}"#);
    merge_legacy_stealth(&mut m);
    assert_eq!(m.get("hides_game"), Some(&serde_json::Value::Bool(false)));
    assert!(!m.contains_key("stealth"));
}

#[test]
fn single_flag_is_left_alone() {
    let mut m = object(r#"{"stealth":true,"walk":false}"#);
    let before = m.clone();
    merge_legacy_stealth(&mut m);
    assert_eq!(m, before);
    let mut m = object(r#"{"hides_game":true}"#);
    merge_legacy_stealth(&mut m);
    assert_eq!(m.get("hides_game"), Some(&serde_json::Value::Bool(true)));
}

#[test]
fn texts_that_are_not_objects() {
    assert!(matches!(repair_legacy_config("{not json"), ConfigRepair::Invalid(_)));
    assert!(matches!(repair_legacy_config("[1, 2]"), ConfigRepair::NotAnObject));
    assert!(matches!(repair_legacy_config("true"), ConfigRepair::NotAnObject));
}
