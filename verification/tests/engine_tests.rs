use targeted_vector::codec::parse_json;
use targeted_vector::engine::App;
use targeted_vector::resource::{check_resource_exist, find_resource, PageData, RenderResource, RustConstructorResource, SeverityLevel};

const TEXTS: &str = r#"{"game_text":{
  "error_track_resource_not_found": ["Missing: ", "缺少："],
  "error_track_resource_not_found_annotation": ["Check the name.", "检查名字。"],
  "error_variable_not_i32_type": ["is not i32", "不是i32"],
  "error_variable_not_u32_type": ["is not u32", "不是u32"],
  "error_variable_not_f32_type": ["is not f32", "不是f32"],
  "error_variable_not_bool_type": ["is not bool", "不是bool"],
  "error_variable_not_vec_type": ["is not vec", "不是vec"],
  "error_variable_not_string_type": ["is not string", "不是string"],
  "error_variable_wrong_type_annotation": ["Wrong type.", "类型错误。"],
  "error_switch_appearance_mismatch": [" lacks appearances", "缺少外观"],
  "error_switch_appearance_mismatch_annotation": ["Filled in.", "已补全。"],
  "error_page_not_found": ["Page not found: ", "找不到页面："],
  "error_page_not_found_annotation": ["Check the page name.", "检查页面名。"]
}}"#;

pub fn app() -> App {
    let texts = parse_json(TEXTS).unwrap();
    App::new(None, Some(&texts))
}

#[test]
fn new_app_starts_on_launch_page() {
    let a = App::new(None, None);
    assert_eq!(a.page, "Launch");
    assert_eq!(a.config.language, 0);
    assert_eq!(a.config.launch_path, "");
    assert!(!a.config.rc_strict_mode);
    assert!(a.game_text.game_text.is_empty());
    let names: Vec<&str> = a.resource_page.iter().map(|p| p.name.as_str()).collect();
    assert_eq!(names, vec!["Launch", "Login", "Home_Page", "Home_Setting", "Home_Select_Map", "Select_Level", "Operation", "Operation_Result", "Error", "Editor"]);
    assert!(a.resource_page.iter().all(|p| p.discern_type == "PageData" && p.forced_update && !p.change_page_updated));
    assert!(a.variables.is_empty() && a.resource_switch.is_empty() && a.problem_list.is_empty());
    assert_eq!(a.login_user_config.name, "");
    assert_eq!(a.timer.total_time, 0);
}

#[test]
fn new_app_takes_preferences_when_they_read() {
    let prefs = parse_json(r#"{"launch_path":"/a","language":1,"login_user_name":"bob","amount_languages":2,"rc_strict_mode":true,"enable_debug_mode":true}"#).unwrap();
    let a = App::new(Some(&prefs), None);
    assert_eq!(a.config.login_user_name, "bob");
    assert!(a.config.rc_strict_mode);
    let broken = parse_json(r#"{"launch_path":"/a"}"#).unwrap();
    let b = App::new(Some(&broken), None);
    assert_eq!(b.config.login_user_name, "");
}

#[test]
fn texts_follow_the_language() {
    let mut a = app();
    assert_eq!(a.localized("error_track_resource_not_found"), "Missing: ");
    assert!(a.has_localized("error_variable_not_i32_type"));
    assert!(!a.has_localized("nothing"));
    a.config.language = 1;
    assert_eq!(a.localized("error_track_resource_not_found"), "缺少：");
    a.config.language = 2;
    assert!(!a.has_localized("error_track_resource_not_found"));
}

#[test]
fn resource_lookup_finds_the_first_of_a_name() {
    let a = app();
    assert!(check_resource_exist(a.resource_page.clone_pages(), "Home_Page"));
    assert!(!check_resource_exist(a.resource_page.clone_pages(), "Nope"));
    assert_eq!(find_resource(&a.resource_page, "Error"), Some(8));
    let mut pages = vec![
        PageData { discern_type: "PageData".to_string(), name: "x".to_string(), forced_update: true, change_page_updated: false },
        PageData { discern_type: "PageData".to_string(), name: "x".to_string(), forced_update: false, change_page_updated: true },
    ];
    assert_eq!(find_resource(&pages, "x"), Some(0));
    pages.remove(0);
    assert_eq!(find_resource(&pages, "x"), Some(0));
    assert!(pages[0].change_page_updated);
}

trait ClonePages {
    fn clone_pages(&self) -> Vec<PageData>;
}

impl ClonePages for Vec<PageData> {
    fn clone_pages(&self) -> Vec<PageData> {
        self.iter()
            .map(|p| PageData { discern_type: p.discern_type.clone(), name: p.name.clone(), forced_update: p.forced_update, change_page_updated: p.change_page_updated })
            .collect()
    }
}

#[test]
fn track_resource_finds_the_first_of_a_name() {
    let mut a = app();
    let pages = a.resource_page.clone_pages();
    assert_eq!(a.track_resource(&pages, "Operation"), 6);
    assert!(a.problem_list.is_empty());
}

#[test]
fn problem_report_records_page_and_times() {
    let mut a = app();
    a.timer.total_time = 3;
    a.timer.now_time = 2;
    a.problem_report("p", SeverityLevel::Error, "n");
    assert_eq!(a.problem_list.len(), 1);
    assert_eq!(a.problem_list[0].problem, "p");
    assert_eq!(a.problem_list[0].annotation, "n");
    assert_eq!(a.problem_list[0].severity_level, SeverityLevel::Error);
    assert_eq!(a.problem_list[0].report_state.current_page, "Launch");
}

#[test]
fn check_updated_marks_a_page_once() {
    let mut a = app();
    a.timer.total_time = 40;
    assert!(!a.check_updated("Login"));
    assert_eq!(a.timer.start_time, 40);
    assert!(a.resource_page[1].change_page_updated);
    a.timer.total_time = 50;
    assert!(a.check_updated("Login"));
    assert_eq!(a.timer.start_time, 40);
    assert!(!a.resource_page[0].change_page_updated);
    assert!(a.problem_list.is_empty());
}

#[test]
fn switch_page_restarts_the_page_time() {
    let mut a = app();
    a.timer.total_time = 77;
    a.switch_page("Home_Page");
    assert_eq!(a.page, "Home_Page");
    assert_eq!(a.timer.start_time, 77);
}

#[test]
fn split_times_are_taken_and_read() {
    let mut a = app();
    a.timer.now_time = 1;
    a.timer.total_time = 2;
    a.add_split_time("anim", false);
    a.timer.now_time = 3;
    a.timer.total_time = 4;
    a.add_split_time("anim", false);
    assert_eq!(a.timer.split_time.len(), 2);
    assert_eq!(a.split_time("anim"), [1, 2]);
    a.timer.now_time = 5;
    a.timer.total_time = 6;
    a.add_split_time("anim", true);
    assert_eq!(a.timer.split_time.len(), 2);
    assert_eq!(a.split_time("anim"), [3, 4]);
    a.add_split_time("anim", true);
    assert_eq!(a.split_time("anim"), [5, 6]);
    assert_eq!(a.timer.split_time[0].discern_type, "SplitTime");
    assert!(a.problem_list.is_empty());
}

#[test]
fn render_resources_are_recorded() {
    let a = app();
    let mut list: Vec<RenderResource> = Vec::new();
    a.resource_page[2].reg_render_resource(&mut list);
    assert_eq!(list.len(), 1);
    assert_eq!(list[0].discern_type, "PageData");
    assert_eq!(list[0].name, "Home_Page");
    assert_eq!(a.resource_page[2].name(), "Home_Page");
    assert_eq!(a.resource_page[2].expose_type(), "PageData");
}

#[test]
fn a_drawn_page_is_left_alone() {
    let mut a = app();
    a.switch_page("Home_Page");
    assert!(a.check_page());
    assert_eq!(a.page, "Home_Page");
    assert!(a.problem_list.is_empty());
    assert!(App::draws_page("Error"));
    assert!(!App::draws_page("Operation_Result"));
    assert!(!App::draws_page("Editor"));
}

#[test]
fn a_page_not_found_is_reported_and_left_for_the_error_page() {
    let mut a = app();
    a.timer.total_time = 7;
    a.switch_page("Nowhere");
    assert!(!a.check_page());
    assert_eq!(a.page, "Error");
    assert_eq!(a.problem_list.len(), 1);
    assert_eq!(a.problem_list[0].problem, "Page not found: Nowhere");
    assert_eq!(a.problem_list[0].annotation, "Check the page name.");
    assert_eq!(a.problem_list[0].severity_level, SeverityLevel::Error);
    assert_eq!(a.problem_list[0].report_state.current_page, "Nowhere");
    assert_eq!(a.timer.start_time, 7);
    assert!(App::draws_page(&a.page));
}

#[test]
fn the_launch_sets_up_its_switches_in_order() {
    let mut a = app();
    a.preload_switches();
    let names: Vec<&str> = a.resource_switch.iter().map(|s| s.name.as_str()).collect();
    assert_eq!(
        names,
        vec![
            "Shutdown", "Register", "Login", "Home_Home", "Home_Journey", "Home_Settings", "Home_Power",
            "Start_Operation", "Forward", "Backward", "Back", "Operation_Over", "Refresh", "Editor"
        ]
    );
    assert!(a.problem_list.is_empty());
    let home = &a.resource_switch[3];
    assert_eq!(home.switch_image_name, "Home_Home");
    let looks: Vec<(&str, [u8; 4])> = home.appearance.iter().map(|d| (d.texture.as_str(), d.color)).collect();
    assert_eq!(looks, vec![("Home", [255, 255, 255, 255]), ("Home", [180, 180, 180, 255]), ("Home", [150, 150, 150, 255])]);
    assert!(home.click_method[0].action);
    let power = &a.resource_switch[6];
    assert_eq!(power.appearance.len(), 6);
    assert_eq!(power.appearance[3].texture, "Logout");
    assert_eq!(power.click_method.len(), 2);
    assert!(!power.click_method[0].action && power.click_method[1].action);
    assert!(!a.resource_switch[13].click_method[0].action);
    assert!(a.resource_switch.iter().all(|s| s.state == 0 && s.animation_count == 3));
}
