use targeted_vector::codec::{parse_json, pretty_json};
use targeted_vector::config::Config;
use targeted_vector::game_text::GameText;
use targeted_vector::json::JsonNode;
use targeted_vector::unlock::{UnlockLevel, UnlockMap};

const PREFERENCES: &str = r#"{"launch_path":"/a","language":1,"login_user_name":"bob","amount_languages":2,"rc_strict_mode":false,"enable_debug_mode":true}"#;

#[test]
fn config_reads_preferences() {
    let doc = parse_json(PREFERENCES).unwrap();
    let c = Config::from_json_value(&doc).unwrap();
    assert_eq!(c.launch_path, "/a");
    assert_eq!(c.language, 1);
    assert_eq!(c.login_user_name, "bob");
    assert_eq!(c.amount_languages, 2);
    assert!(!c.rc_strict_mode);
    assert!(c.enable_debug_mode);
}

#[test]
fn config_needs_every_member() {
    let doc = parse_json(r#"{"launch_path":"/a","language":1,"login_user_name":"bob","amount_languages":2,"rc_strict_mode":false}"#).unwrap();
    assert!(Config::from_json_value(&doc).is_none());
}

#[test]
fn config_refuses_a_language_out_of_range() {
    let doc = parse_json(r#"{"launch_path":"/a","language":256,"login_user_name":"bob","amount_languages":2,"rc_strict_mode":false,"enable_debug_mode":true}"#).unwrap();
    assert!(Config::from_json_value(&doc).is_none());
}

#[test]
fn config_refuses_a_wrong_type() {
    let doc = parse_json(r#"{"launch_path":3,"language":1,"login_user_name":"bob","amount_languages":2,"rc_strict_mode":false,"enable_debug_mode":true}"#).unwrap();
    assert!(Config::from_json_value(&doc).is_none());
}

#[test]
fn config_round_trip_through_text() {
    let doc = parse_json(PREFERENCES).unwrap();
    let c = Config::from_json_value(&doc).unwrap();
    let text = pretty_json(&c.to_json_value());
    let back = Config::from_json_value(&parse_json(&text).unwrap()).unwrap();
    assert_eq!(back.launch_path, c.launch_path);
    assert_eq!(back.language, c.language);
    assert_eq!(back.login_user_name, c.login_user_name);
    assert_eq!(back.amount_languages, c.amount_languages);
    assert_eq!(back.rc_strict_mode, c.rc_strict_mode);
    assert_eq!(back.enable_debug_mode, c.enable_debug_mode);
}

#[test]
fn config_is_written_in_member_order() {
    let c = Config {
        launch_path: "p".to_string(),
        language: 0,
        login_user_name: "".to_string(),
        amount_languages: 3,
        rc_strict_mode: true,
        enable_debug_mode: false,
    };
    assert_eq!(
        pretty_json(&c.to_json_value()),
        "{\n    \"launch_path\": \"p\",\n    \"language\": 0,\n    \"login_user_name\": \"\",\n    \"amount_languages\": 3,\n    \"rc_strict_mode\": true,\n    \"enable_debug_mode\": false\n}"
    );
}

#[test]
fn unlock_entries_read() {
    let m = UnlockMap::from_json_value(&parse_json(r#"{"map_name":"m1","require_perfect_clear":true}"#).unwrap()).unwrap();
    assert_eq!(m.map_name, "m1");
    assert!(m.require_perfect_clear);
    assert!(UnlockMap::from_json_value(&parse_json(r#"{"map_name":"m1"}"#).unwrap()).is_none());
    let l = UnlockLevel::from_json_value(&parse_json(r#"{"level_name":"l","level_map":"m","require_perfect_clear":false}"#).unwrap()).unwrap();
    assert_eq!(l.level_name, "l");
    assert_eq!(l.level_map, "m");
    assert!(!l.require_perfect_clear);
    assert!(UnlockLevel::from_json_value(&parse_json(r#"{"level_name":"l","level_map":1,"require_perfect_clear":false}"#).unwrap()).is_none());
}

#[test]
fn game_text_reads_arrays_of_strings() {
    let doc = parse_json(r#"{"game_text":{"hello":["Hello","你好", 3],"skip":"x","bye":["Bye"]}}"#).unwrap();
    let g = GameText::from_json_value(&doc).unwrap();
    assert_eq!(g.game_text.len(), 2);
    assert_eq!(g.lookup("hello", 0), Some("Hello".to_string()));
    assert_eq!(g.lookup("hello", 1), Some("你好".to_string()));
    assert_eq!(g.lookup("hello", 2), None);
    assert_eq!(g.lookup("bye", 0), Some("Bye".to_string()));
    assert_eq!(g.lookup("skip", 0), None);
}

#[test]
fn game_text_needs_an_object() {
    assert!(GameText::from_json_value(&parse_json(r#"{"game_text":[1]}"#).unwrap()).is_none());
    assert!(GameText::from_json_value(&parse_json(r#"{}"#).unwrap()).is_none());
    let g = GameText::from_json_value(&parse_json(r#"{"game_text":{}}"#).unwrap()).unwrap();
    assert!(g.game_text.is_empty());
}

#[test]
fn game_text_later_key_replaces_earlier() {
    let inner = JsonNode::Object(vec![
        ("k".to_string(), JsonNode::Array(vec![JsonNode::Str("first".to_string())])),
        ("k".to_string(), JsonNode::Array(vec![JsonNode::Str("second".to_string())])),
    ]);
    let doc = JsonNode::Object(vec![("game_text".to_string(), inner)]);
    let g = GameText::from_json_value(&doc).unwrap();
    assert_eq!(g.game_text.len(), 1);
    assert_eq!(g.lookup("k", 0), Some("second".to_string()));
}
