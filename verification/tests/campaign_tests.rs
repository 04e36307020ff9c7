use targeted_vector::user::UserLevelStatus;
use targeted_vector::account::register;
use targeted_vector::campaign::{level_file_name, next_map, previous_map, replace_all};

#[test]
fn replacing_goes_left_to_right() {
    assert_eq!(replace_all("aaa", "aa", "b"), "ba");
    assert_eq!(replace_all("map_map_x", "map_", "level_"), "level_level_x");
    assert_eq!(replace_all("", "x", "y"), "");
    assert_eq!(replace_all("abc", "d", "e"), "abc");
    assert_eq!(replace_all("a.json.json", ".json", ""), "a");
}

#[test]
fn the_file_of_a_level() {
    assert_eq!(
        level_file_name("Resources/config/map_tutorial.json", "1-1"),
        "Resources/config/level_tutorial_1-1.json"
    );
    let mut u = register("ann", "pw", "pw", 0, false).user.unwrap();
    u.enter_level("2-3");
    assert_eq!(u.current_level, "level_tutorial_2-3.json");
    assert_eq!(u.current_map, "map_tutorial");
}

#[test]
fn browsing_maps_stops_at_the_ends() {
    assert_eq!(next_map(0, 3), 1);
    assert_eq!(next_map(2, 3), 2);
    assert_eq!(next_map(0, 1), 0);
    assert_eq!(previous_map(2), 1);
    assert_eq!(previous_map(0), 0);
}

#[test]
fn levels_and_routes_show_once_unlocked() {
    let mut u = register("ann", "pw", "pw", 0, false).user.unwrap();
    let status = |name: &str, s: i8| UserLevelStatus {
        level_name: name.to_string(),
        level_map: "map_tutorial".to_string(),
        level_status: s,
    };
    u.level_status.push(status("1-1", 2));
    u.level_status.push(status("1-2", -1));
    u.level_status.push(status("1-3", 0));
    u.level_status.push(status("1-2", 1));
    let levels = vec!["1-1".to_string(), "1-2".to_string(), "1-3".to_string()];
    assert!(u.shows_level(&levels, "1-1"));
    assert!(!u.shows_level(&levels, "1-2"));
    assert!(u.shows_level(&levels, "1-3"));
    assert!(!u.shows_level(&levels, "2-1"));
    assert!(u.route_shown(&levels, "1-1", "1-3"));
    assert!(!u.route_shown(&levels, "1-1", "1-2"));
    assert!(!u.route_shown(&levels[..2].to_vec(), "1-1", "1-3"));
}
