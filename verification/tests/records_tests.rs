use targeted_vector::codec::parse_json;
use targeted_vector::json::{JsonNode, JsonNumber};
use targeted_vector::records::{GameMap, Gun, JsonReadEnemy, Level, MovePath, Operation, OperationGlobal};

fn doc(text: &str) -> JsonNode {
    parse_json(text).unwrap()
}

fn num(positive: bool, mantissa: u64, exponent: i16) -> JsonNumber {
    JsonNumber { positive, mantissa, exponent }
}

const GUN: &str = r#"{"gun_recognition_name": "g1", "gun_name": ["枪", "Gun", 3],
  "gun_size": [120, 40.5], "gun_image": "g.png", "gun_shoot_sound": "s.wav",
  "gun_shoot_speed": 0.1, "gun_reload_time": 1, "gun_basic_damage": 25,
  "gun_catridge_clip": 30, "gun_recoil": 2.5, "gun_temperature_degree": 10,
  "gun_tag": ["down_shoot"], "gun_initial_unlock": true,
  "gun_no_bullet_shoot_sound": "n.wav", "gun_reload_sound": "r.wav",
  "gun_reload_bullet_sound": "b.wav", "gun_reload_interval": 0.2,
  "gun_overheating_sound": "o.wav"}"#;

#[test]
fn a_gun_reads_with_its_numbers() {
    let g = Gun::from_json_value(&doc(GUN)).unwrap();
    assert_eq!(g.gun_recognition_name, "g1");
    assert_eq!(g.gun_name, vec!["枪".to_string(), "Gun".to_string()]);
    assert_eq!(g.gun_size, [num(true, 120, 0), num(true, 405, -1)]);
    assert_eq!(g.gun_shoot_speed, num(true, 1, -1));
    assert_eq!(g.gun_catridge_clip, 30);
    assert_eq!(g.gun_temperature_degree, 10);
    assert_eq!(g.gun_tag, vec!["down_shoot".to_string()]);
    assert!(g.gun_initial_unlock);
    let odd_size = GUN.replace("[120, 40.5]", "[1, 2, 3]");
    assert_eq!(Gun::from_json_value(&doc(&odd_size)).unwrap().gun_size, [num(true, 0, 0), num(true, 0, 0)]);
    let no_clip = GUN.replace("\"gun_catridge_clip\": 30,", "");
    assert!(Gun::from_json_value(&doc(&no_clip)).is_none());
    let text_speed = GUN.replace("0.1", "\"fast\"");
    assert!(Gun::from_json_value(&doc(&text_speed)).is_none());
}

const OPERATION: &str = r#"{"global": {"target_point": 10, "storage_bullet": 60, "cost": 5,
  "cost_recover_speed": 1.5, "instrument_ceiling": 3, "target_line": [[0, 300], [1280], "x", [1280, 300.5]],
  "operation_background": "a", "operation_background_expand": "b",
  "operation_start_background": "c", "operation_over_background": "d"},
  "target_enemy": [{"enemy_recognition_name": "e1", "enemy_position": [1, 2], "enemy_size": [3, 4],
     "enemy_path": ["p1", 7], "enemy_approach_time": 2, "enemy_approach_alpha": 0, "enemy_increase_alpha_speed": 5}],
  "message_box": [{"box_size": [100, 50], "box_image_path": "i.png", "box_title": ["t"], "box_content": ["c"],
     "box_title_color": [1, 2, 3, 4], "box_content_color": [5, 6, 7, 8], "box_existing_time": 0, "box_appear_time": 1}]}"#;

#[test]
fn an_operation_reads_whole_or_not_at_all() {
    let o = Operation::from_json_value(&doc(OPERATION)).unwrap();
    assert_eq!(o.global.target_point, 10);
    assert_eq!(o.global.target_line, vec![[num(true, 0, 0), num(true, 300, 0)], [num(true, 1280, 0), num(true, 3005, -1)]]);
    assert_eq!(o.global.cost_recover_speed, num(true, 15, -1));
    assert_eq!(o.target_enemy.len(), 1);
    assert_eq!(o.target_enemy[0].enemy_path, vec!["p1".to_string(), "7".to_string()]);
    assert_eq!(o.message_box[0].box_title_color, [1, 2, 3, 4]);
    assert!(o.message_box[0].box_enable);
    let bad_enemy = OPERATION.replace("\"enemy_size\": [3, 4]", "\"enemy_size\": [3]");
    assert!(Operation::from_json_value(&doc(&bad_enemy)).is_none());
    let bad_color = OPERATION.replace("[5, 6, 7, 8]", "[5, 6, 7, 300]");
    assert!(Operation::from_json_value(&doc(&bad_color)).is_none());
    assert!(OperationGlobal::from_json_value(&doc("{}")).is_none());
}

#[test]
fn paths_and_enemies() {
    let p = MovePath::from_json_value(&doc(r#"{"move_status": [true, false, false, true], "move_time": 3}"#)).unwrap();
    assert_eq!(p.move_status, [true, false, false, true]);
    assert_eq!(p.move_time, num(true, 3, 0));
    assert!(MovePath::from_json_value(&doc(r#"{"move_status": [true, false, false], "move_time": 3}"#)).is_none());
    let e = JsonReadEnemy::from_json_value(&doc(r#"{"enemy_recognition_name": "slime", "enemy_name": ["史莱姆", "Slime"],
      "enemy_hp": 100, "enemy_def": 2, "enemy_speed": 1.5, "enemy_invincible_time": 0.5, "enemy_image_count": 4,
      "enemy_tag": [], "enemy_image": "s", "enemy_image_type": ".png", "enemy_minus_target_point": 2,
      "enemy_walk_interval": 0.05, "enemy_animation_interval": 0.2}"#)).unwrap();
    assert_eq!(e.enemy_name.len(), 2);
    assert_eq!(e.enemy_minus_target_point, 2);
    assert_eq!(e.enemy_speed, num(true, 15, -1));
}

const MAP: &str = r#"{"map_name": ["教程", "Tutorial"], "map_author": "a", "map_image": "m.png",
  "map_width": 2000, "map_scroll_offset": -12.5, "map_description": ["d"], "map_intro": "i.png",
  "map_content": [{"level_name": "1-1", "level_name_expand": ["x"], "level_description": [], "level_type": "normal",
      "level_position": [100, 200], "level_initial_status": true,
      "unlock_map": [{"map_name": "m2", "require_perfect_clear": false}, {"map_name": 1}],
      "unlock_level": [{"level_name": "1-2", "level_map": "m", "require_perfect_clear": true}]},
    {"level_name": "broken"}],
  "map_connecting_line": [["1-1", "1-2"], ["1-1"], ["a", 3, "b"]],
  "map_initial_unlock_status": true, "map_unlock_description": [], "map_lock_intro": "l.png"}"#;

#[test]
fn a_map_reads_and_writes_back() {
    let m = GameMap::from_json_value(&doc(MAP)).unwrap();
    assert_eq!(m.map_content.len(), 1);
    assert_eq!(m.map_content[0].unlock_map.len(), 1);
    assert_eq!(m.map_connecting_line, vec![["1-1".to_string(), "1-2".to_string()], ["a".to_string(), "b".to_string()]]);
    assert_eq!(m.map_scroll_offset, num(false, 125, -1));
    let back = GameMap::from_json_value(&m.to_json_value()).unwrap();
    assert_eq!(back.map_name, m.map_name);
    assert_eq!(back.map_content[0].level_name, "1-1");
    assert_eq!(back.map_content[0].unlock_level[0].level_map, "m");
    assert_eq!(back.map_connecting_line, m.map_connecting_line);
    assert_eq!(back.map_scroll_offset, m.map_scroll_offset);
    let l = Level::from_json_value(&doc(r#"{"level_name": "x", "level_type": "t", "level_position": [1, 2], "level_initial_status": false}"#)).unwrap();
    assert!(l.level_name_expand.is_empty() && l.unlock_map.is_empty());
}
