use targeted_vector::codec::{parse_json, pretty_json};
use targeted_vector::user::{User, UserGunStatus, UserLevelStatus, UserMapStatus};

const SAVE: &str = r#"{
  "name": "ann", "password": "pw", "language": 1, "wallpaper": "w.png",
  "current_map": "map_tutorial",
  "level_status": [{"level_name":"l1","level_map":"m","level_status":-1}, {"level_name":"bad"}, {"level_name":"l2","level_map":"m","level_status":2}],
  "gun_status": [{"gun_recognition_name":"g","gun_level":-5}],
  "map_status": [{"map_name":"m","map_unlock_status":true}, {"map_name":"n","map_status":true}],
  "settings": {"volume": "7", "mute": false, "n": 3},
  "current_level": "l2"
}"#;

fn sample() -> User {
    User::from_json_value(&parse_json(SAVE).unwrap()).unwrap()
}

#[test]
fn user_reads_save_file() {
    let u = sample();
    assert_eq!(u.name, "ann");
    assert_eq!(u.password, "pw");
    assert_eq!(u.language, 1);
    assert_eq!(u.wallpaper, "w.png");
    assert_eq!(u.current_map, "map_tutorial");
    assert_eq!(u.current_level, "l2");
    assert_eq!(u.level_status.len(), 2);
    assert_eq!(u.level_status[0].level_name, "l1");
    assert_eq!(u.level_status[0].level_status, -1);
    assert_eq!(u.level_status[1].level_status, 2);
    assert_eq!(u.gun_status.len(), 1);
    assert_eq!(u.gun_status[0].gun_level, -5);
    assert_eq!(u.map_status.len(), 1);
    assert_eq!(u.map_status[0].map_name, "m");
    assert!(u.map_status[0].map_unlock_status);
    assert_eq!(u.settings.len(), 3);
    assert_eq!(u.settings[0], ("volume".to_string(), "7".to_string()));
    assert_eq!(u.settings[1], ("mute".to_string(), "false".to_string()));
    assert_eq!(u.settings[2], ("n".to_string(), "3".to_string()));
}

#[test]
fn user_needs_its_text_members() {
    assert!(User::from_json_value(&parse_json(r#"{"name":"a","password":"b","language":0,"wallpaper":"w","current_map":"m"}"#).unwrap()).is_none());
    let u = User::from_json_value(&parse_json(r#"{"name":"a","password":"b","language":0,"wallpaper":"w","current_map":"m","current_level":""}"#).unwrap()).unwrap();
    assert!(u.level_status.is_empty() && u.gun_status.is_empty() && u.map_status.is_empty() && u.settings.is_empty());
}

#[test]
fn user_round_trip_loses_map_status_only() {
    let u = sample();
    let text = pretty_json(&u.to_json_value());
    let back = User::from_json_value(&parse_json(&text).unwrap()).unwrap();
    assert_eq!(back.name, u.name);
    assert_eq!(back.password, u.password);
    assert_eq!(back.language, u.language);
    assert_eq!(back.wallpaper, u.wallpaper);
    assert_eq!(back.current_map, u.current_map);
    assert_eq!(back.current_level, u.current_level);
    assert_eq!(back.level_status.len(), u.level_status.len());
    for i in 0..u.level_status.len() {
        assert_eq!(back.level_status[i].level_name, u.level_status[i].level_name);
        assert_eq!(back.level_status[i].level_map, u.level_status[i].level_map);
        assert_eq!(back.level_status[i].level_status, u.level_status[i].level_status);
    }
    assert_eq!(back.gun_status[0].gun_recognition_name, "g");
    assert_eq!(back.gun_status[0].gun_level, -5);
    assert!(back.map_status.is_empty());
    assert_eq!(back.settings, u.settings);
}

#[test]
fn map_status_is_written_under_map_status() {
    let m = UserMapStatus { map_name: "m".to_string(), map_unlock_status: true };
    assert_eq!(pretty_json(&m.to_json_value()), "{\n    \"map_name\": \"m\",\n    \"map_status\": true\n}");
    assert!(UserMapStatus::from_json_value(&m.to_json_value()).is_none());
}

#[test]
fn status_entries_round_trip() {
    let l = UserLevelStatus { level_name: "a".to_string(), level_map: "b".to_string(), level_status: -127 };
    let back = UserLevelStatus::from_json_value(&l.to_json_value()).unwrap();
    assert_eq!(back.level_status, -127);
    let g = UserGunStatus { gun_recognition_name: "g".to_string(), gun_level: 2147483647 };
    assert_eq!(UserGunStatus::from_json_value(&g.to_json_value()).unwrap().gun_level, 2147483647);
}

#[test]
fn level_status_lookup() {
    let mut u = sample();
    assert_eq!(u.level_status_of("l2"), 2);
    assert_eq!(u.level_status_of("nowhere"), -1);
    u.ensure_level_status("l2", "m", 0);
    assert_eq!(u.level_status.len(), 2);
    u.ensure_level_status("l3", "m", 1);
    assert_eq!(u.level_status.len(), 3);
    assert_eq!(u.level_status_of("l3"), 1);
    assert_eq!(u.level_status[2].level_map, "m");
    u.level_status.push(UserLevelStatus { level_name: "l4".to_string(), level_map: "m".to_string(), level_status: -2 });
    u.ensure_level_status("l4", "m", 0);
    assert_eq!(u.level_status.len(), 5);
    assert_eq!(u.level_status[4].level_status, 0);
    assert_eq!(u.level_status_of("l4"), -2);
}

#[test]
fn gun_status_lookup() {
    let mut u = sample();
    assert_eq!(u.ensure_gun_status("g", 0), 0);
    assert_eq!(u.gun_status.len(), 1);
    assert_eq!(u.ensure_gun_status("h", 3), 1);
    assert_eq!(u.gun_status[1].gun_level, 3);
    u.gun_status.push(UserGunStatus { gun_recognition_name: "g".to_string(), gun_level: 9 });
    assert_eq!(u.ensure_gun_status("g", 0), 2);
}

#[test]
fn guns_join_an_operation_once_per_status() {
    let mut u = sample();
    assert_eq!(u.gun_copies("g", 0), 1);
    assert_eq!(u.gun_copies("h", -1), 0);
    assert_eq!(u.gun_status.len(), 2);
    assert_eq!(u.gun_copies("h", 0), 0);
    assert_eq!(u.gun_copies("k", 4), 1);
    assert_eq!(u.gun_status[2].gun_level, 4);
    u.gun_status.push(UserGunStatus { gun_recognition_name: "g".to_string(), gun_level: 1 });
    assert_eq!(u.gun_copies("g", 0), 2);
    u.gun_status.push(UserGunStatus { gun_recognition_name: "g".to_string(), gun_level: -1 });
    assert_eq!(u.gun_copies("g", 0), 0);
}
