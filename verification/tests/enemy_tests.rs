use targeted_vector::engine::App;
use targeted_vector::value::Value;
use targeted_vector::enemy::{fade_step, next_walk_status, penalized_target_point, EnemyState, Score};

#[test]
fn fading_saturates() {
    assert_eq!(fade_step(250, true, 10), 255);
    assert_eq!(fade_step(200, true, 10), 210);
    assert_eq!(fade_step(5, false, 10), 0);
    assert_eq!(fade_step(50, false, 10), 40);
    assert_eq!(fade_step(245, true, 10), 255);
}

#[test]
fn target_points_and_legs() {
    assert_eq!(penalized_target_point(10, 3), 7);
    assert_eq!(penalized_target_point(3, 3), 0);
    assert_eq!(penalized_target_point(2, 3), 0);
    assert_eq!(next_walk_status(0, 3), 1);
    assert_eq!(next_walk_status(2, 3), 0);
    assert_eq!(next_walk_status(0, 1), 0);
}

#[test]
fn an_enemy_fades_in_wakes_and_walks() {
    let mut e = EnemyState::placed(0, true, false);
    e.wake_or_vanish(50);
    assert!(e.activated);
    assert!(!e.appear(100));
    assert_eq!((e.alpha, e.shade), (100, 100));
    assert!(e.appear(200));
    assert_eq!((e.alpha, e.shade), (255, 255));
    e.show_guard(true);
    assert_eq!(e.shade, 125);
    e.show_guard(false);
    assert_eq!(e.shade, 255);
    e.next_leg(2);
    assert_eq!(e.walk_status, 1);
    e.next_leg(2);
    assert_eq!(e.walk_status, 0);
}

#[test]
fn animation_frames_run_back_and_forth() {
    let mut e = EnemyState::placed(0, false, true);
    let mut frames = Vec::new();
    for _ in 0..6 {
        e.animate(2);
        frames.push(e.animation_count);
    }
    assert_eq!(frames, vec![1, 2, 1, 0, 1, 2]);
}

#[test]
fn escaping_and_falling_count() {
    let mut score = Score { target_point: 5, killed: 0 };
    let mut e = EnemyState::placed(255, true, true);
    e.escape(&mut score, 3);
    assert!(e.out && !e.activated);
    assert_eq!((score.target_point, score.killed), (2, 1));
    let mut f = EnemyState::placed(255, false, true);
    f.escape(&mut score, 3);
    assert_eq!((score.target_point, score.killed), (0, 1));
    let mut g = EnemyState::placed(255, true, true);
    g.fall(&mut score);
    assert!(g.out && !g.activated && g.shade == 255);
    assert_eq!((score.target_point, score.killed), (0, 2));
    g.wake_or_vanish(100);
    assert_eq!((g.alpha, g.shade), (155, 155));
    g.wake_or_vanish(200);
    assert_eq!((g.alpha, g.shade), (0, 0));
    assert!(!g.activated);
}

#[test]
fn an_escape_spoils_the_perfect_clear() {
    let mut a = App::new(None, None);
    a.add_var("perfect_clear", Value::Bool(true));
    a.add_var("target_point", Value::UInt(5));
    a.add_var("current_killed_target_enemy", Value::UInt(2));
    let mut e = EnemyState::placed(255, true, true);
    a.enemy_escapes(&mut e, 3);
    assert!(e.out && !e.activated && e.shade == 255);
    assert!(!a.var_b("perfect_clear"));
    assert_eq!(a.var_u("target_point"), 2);
    assert_eq!(a.var_u("current_killed_target_enemy"), 3);
    let mut f = EnemyState::placed(255, false, true);
    a.enemy_escapes(&mut f, 3);
    assert_eq!(a.var_u("target_point"), 0);
    assert_eq!(a.var_u("current_killed_target_enemy"), 3);
    assert!(a.problem_list.is_empty());
}

#[test]
fn a_due_fade_steps_and_restarts_its_moment() {
    let mut a = App::new(None, None);
    a.timer.now_time = 1;
    a.timer.total_time = 2;
    a.add_split_time("cut_to_animation", false);
    a.timer.now_time = 7;
    a.timer.total_time = 8;
    assert_eq!(a.fade(250, true, "cut_to_animation", 10, false), 250);
    assert_eq!(a.split_time("cut_to_animation"), [1, 2]);
    assert_eq!(a.fade(250, true, "cut_to_animation", 10, true), 255);
    assert_eq!(a.split_time("cut_to_animation"), [7, 8]);
    assert_eq!(a.timer.split_time.len(), 1);
    assert_eq!(a.fade(4, false, "cut_to_animation", 10, true), 0);
}
