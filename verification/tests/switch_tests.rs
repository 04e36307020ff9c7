use targeted_vector::codec::parse_json;
use targeted_vector::engine::App;
use targeted_vector::switch::{Pointer, PointerButton, SwitchClickAction, SwitchData, SwitchOutcome};

const TEXTS: &str = r#"{"game_text":{
  "error_track_resource_not_found": ["Missing: "],
  "error_track_resource_not_found_annotation": ["Check the name."],
  "error_switch_appearance_mismatch": [" lacks appearances"],
  "error_switch_appearance_mismatch_annotation": ["Filled in."]
}}"#;

fn app() -> App {
    App::new(None, Some(&parse_json(TEXTS).unwrap()))
}

fn looks(n: usize) -> Vec<SwitchData> {
    (0..n).map(|i| SwitchData { texture: format!("t{}", i), color: [i as u8, 0, 0, 255] }).collect()
}

fn primary(action: bool) -> Vec<SwitchClickAction> {
    vec![SwitchClickAction { click_method: PointerButton::Primary, action }]
}

#[test]
fn add_switch_with_all_appearances() {
    let mut a = app();
    a.add_switch(["Go", "Go_Image"], looks(6), [true, true, true], 2, primary(true));
    assert!(a.problem_list.is_empty());
    let s = &a.resource_switch[0];
    assert_eq!(s.name, "Go");
    assert_eq!(s.switch_image_name, "Go_Image");
    assert_eq!(s.discern_type, "Switch");
    assert_eq!(s.animation_count, 3);
    assert_eq!(s.state, 0);
    assert_eq!(s.appearance.len(), 6);
    assert_eq!(s.enable_hover_click_image, [true, true]);
}

#[test]
fn add_switch_fills_in_missing_appearances() {
    let mut a = app();
    a.add_switch(["Go", "Go_Image"], looks(1), [true, false, false], 12, primary(false));
    assert_eq!(a.resource_switch[0].appearance.len(), 24);
    assert_eq!(a.resource_switch[0].appearance[23].texture, "Error");
    assert_eq!(a.resource_switch[0].appearance[23].color, [255, 255, 255, 255]);
    assert_eq!(a.problem_list.len(), 1);
    assert_eq!(a.problem_list[0].problem, "Go lacks appearances:23");
    assert_eq!(a.problem_list[0].annotation, "Filled in.");
}

#[test]
fn a_click_cycles_through_states() {
    let mut a = app();
    a.add_switch(["S", "S_Image"], looks(6), [true, true, true], 2, primary(true));
    let hover = Pointer::Inside(vec![false]);
    let press = Pointer::Inside(vec![true]);
    assert_eq!(a.switch("S", true, &hover, true), SwitchOutcome { activated: [5, 0], shown: Some(1), click_sound: false });
    assert_eq!(a.switch("S", true, &press, true), SwitchOutcome { activated: [5, 0], shown: Some(2), click_sound: false });
    assert!(a.resource_switch[0].last_time_clicked);
    assert_eq!(a.switch("S", true, &hover, true), SwitchOutcome { activated: [0, 1], shown: Some(4), click_sound: true });
    assert_eq!(a.resource_switch[0].state, 1);
    a.switch("S", true, &press, false);
    assert_eq!(a.switch("S", true, &hover, false), SwitchOutcome { activated: [0, 0], shown: Some(1), click_sound: false });
    assert_eq!(a.resource_switch[0].state, 0);
    assert_eq!(a.render_resource_list.len(), 5);
    assert_eq!(a.render_resource_list[0].name, "S");
}

#[test]
fn leaving_or_disabling_cancels_a_press() {
    let mut a = app();
    a.add_switch(["S", "S_Image"], looks(4), [false, true, true], 2, primary(true));
    a.switch("S", true, &Pointer::Inside(vec![true]), true);
    assert_eq!(a.switch("S", true, &Pointer::Outside, true), SwitchOutcome { activated: [5, 0], shown: Some(0), click_sound: false });
    assert!(!a.resource_switch[0].last_time_clicked);
    a.switch("S", true, &Pointer::Inside(vec![true]), true);
    assert_eq!(a.switch("S", false, &Pointer::Inside(vec![false]), true), SwitchOutcome { activated: [5, 0], shown: Some(0), click_sound: false });
    assert_eq!(a.resource_switch[0].state, 0);
}

#[test]
fn an_absent_pointer_changes_nothing() {
    let mut a = app();
    a.add_switch(["S", "S_Image"], looks(2), [true, false, false], 1, primary(false));
    a.switch("S", true, &Pointer::Inside(vec![true]), true);
    assert_eq!(a.switch("S", true, &Pointer::Absent, true), SwitchOutcome { activated: [5, 0], shown: None, click_sound: false });
    assert!(a.resource_switch[0].last_time_clicked);
}

#[test]
fn a_press_with_only_hover_image_keeps_the_look() {
    let mut a = app();
    a.add_switch(["S", "S_Image"], looks(2), [true, false, false], 1, primary(false));
    assert_eq!(a.switch("S", true, &Pointer::Inside(vec![true]), true).shown, None);
    let r = a.switch("S", true, &Pointer::Inside(vec![false]), true);
    assert_eq!(r, SwitchOutcome { activated: [0, 0], shown: Some(1), click_sound: true });
}

#[test]
fn the_first_pressed_method_counts() {
    let mut a = app();
    let methods = vec![
        SwitchClickAction { click_method: PointerButton::Primary, action: false },
        SwitchClickAction { click_method: PointerButton::Secondary, action: true },
    ];
    a.add_switch(["S", "S_Image"], looks(2), [false, false, false], 2, methods);
    a.switch("S", true, &Pointer::Inside(vec![false, true]), true);
    assert_eq!(a.resource_switch[0].last_time_clicked_index, 1);
    let r = a.switch("S", true, &Pointer::Inside(vec![false, false]), true);
    assert_eq!(r.activated, [1, 1]);
    a.switch("S", true, &Pointer::Inside(vec![true, true]), true);
    let r = a.switch("S", true, &Pointer::Inside(vec![false, false]), true);
    assert_eq!(r.activated, [0, 1]);
}

