use targeted_vector::account::{register, sanitize_user_name, user_file_path, RegWindow};
use targeted_vector::engine::App;
use targeted_vector::files::check_file_exists;

#[test]
fn names_lose_spaces_and_slashes() {
    assert_eq!(sanitize_user_name(" a/b\\c d "), "abcd");
    assert_eq!(sanitize_user_name("玩家 一"), "玩家一");
    assert_eq!(sanitize_user_name("/ \\"), "");
    assert_eq!(sanitize_user_name(&sanitize_user_name("x y")), "xy");
}

#[test]
fn save_file_path() {
    assert_eq!(user_file_path("ann"), "Resources/config/user_ann.json");
}

#[test]
fn registration_checks_name_and_passwords() {
    let r = register(" ann ", "pw", "pw", 1, false);
    assert!(!r.name_error && !r.password_error);
    let u = r.user.unwrap();
    assert_eq!(u.name, "ann");
    assert_eq!(u.password, "pw");
    assert_eq!(u.language, 1);
    assert_eq!(u.wallpaper, "Resources/assets/images/wallpaper.png");
    assert_eq!(u.current_map, "map_tutorial");
    assert_eq!(u.current_level, "");
    assert!(u.settings.is_empty() && u.level_status.is_empty());

    let r = register("ann", "pw", "px", 0, false);
    assert!(r.password_error && !r.name_error && r.user.is_none());
    let r = register(" / ", "pw", "pw", 0, false);
    assert!(r.name_error && r.user.is_none());
    let r = register("ann", "pw", "pw", 0, true);
    assert!(r.name_error && !r.password_error && r.user.is_none());
}

#[test]
fn logging_in_needs_the_password() {
    let mut a = App::new(None, None);
    let u = register("ann", "pw", "pw", 1, false).user.unwrap();
    assert!(!a.log_in(&u, "nope"));
    assert_eq!(a.page, "Launch");
    assert_eq!(a.config.login_user_name, "");
    a.timer.total_time = 42;
    assert!(a.log_in(&u, "pw"));
    assert_eq!(a.page, "Launch");
    assert_eq!(a.timer.start_time, 42);
    a.open_home();
    assert_eq!(a.page, "Home_Page");
    assert_eq!(a.config.login_user_name, "ann");
    assert_eq!(a.config.language, 1);
}

#[test]
fn file_existence() {
    assert!(check_file_exists("/"));
    assert!(!check_file_exists("/surely/not/here/at/all.json"));
}

#[test]
fn leaving_the_launch_screen() {
    let mut a = App::new(None, None);
    a.leave_launch(None);
    assert_eq!(a.page, "Login");

    let mut a = App::new(None, None);
    a.config.login_user_name = "ann".to_string();
    let u = register("ann", "pw", "pw", 1, false).user.unwrap();
    a.leave_launch(Some(u));
    assert_eq!(a.page, "Home_Page");
    assert_eq!(a.login_user_config.name, "ann");
    assert_eq!(a.config.language, 1);

    let mut a = App::new(None, None);
    a.config.login_user_name = "ghost".to_string();
    a.config.language = 1;
    a.leave_launch(None);
    assert_eq!(a.page, "Home_Page");
    assert_eq!(a.login_user_config.name, "");
    assert_eq!(a.config.language, 0);
}

#[test]
fn the_registration_window_flow() {
    let mut w = RegWindow::closed();
    w.open_window();
    assert!(w.open && w.status == 0);
    assert!(w.submit("ann", "pw", "pw", 0, false).is_none());
    assert!(w.finish("ann", "pw").is_none());
    w.back();
    assert!(!w.open);
    w.open_window();
    w.proceed();
    assert_eq!(w.status, 1);
    assert!(w.submit(" ", "pw", "px", 0, false).is_none());
    assert!(w.name_error && w.password_error && w.status == 1);
    w.back();
    assert_eq!(w.status, 0);
    w.proceed();
    assert!(!w.name_error && !w.password_error);
    let u = w.submit("a n/n", "pw", "pw", 1, false).unwrap();
    assert_eq!(u.name, "ann");
    assert_eq!(w.status, 2);
    assert_eq!(w.finish("a n/n", "pw"), Some(("ann".to_string(), "pw".to_string())));
    assert!(!w.open && w.status == 2);
    w.open_window();
    assert_eq!(w.status, 0);
}

#[test]
fn opening_home_restarts_the_dock_and_title_animations() {
    let mut a = App::new(None, None);
    a.open_home();
    assert!(a.timer.split_time.is_empty());
    a.add_split_time("title_animation", false);
    a.add_split_time("dock_animation", false);
    a.add_split_time("other", false);
    a.timer.now_time = 3;
    a.timer.total_time = 9;
    a.open_home();
    let names: Vec<&str> = a.timer.split_time.iter().map(|t| t.name.as_str()).collect();
    assert_eq!(names, vec!["other", "dock_animation", "title_animation"]);
    assert_eq!(a.split_time("dock_animation"), [3, 9]);
    assert_eq!(a.split_time("title_animation"), [3, 9]);
    assert_eq!(a.timer.start_time, 9);
    assert_eq!(a.page, "Home_Page");
}
