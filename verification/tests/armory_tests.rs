use targeted_vector::armory::{Armory, GunEvent, GunState, Loading, MAX_HEAT};

fn armory(n: usize) -> Armory {
    let guns = (0..n).map(|_| GunState::loaded(0, 3)).collect();
    Armory::new(guns, 2, 10)
}

#[test]
fn a_gun_starts_cold_and_full() {
    let g = GunState::loaded(2, 30);
    assert_eq!((g.phase, g.temperature, g.surplus_bullets, g.clip, g.reload), (2, 0, 30, 30, false));
    assert_eq!(g.heat_color(), [255, 255, 255, 255]);
    let hot = GunState { temperature: 55, ..g };
    assert_eq!(hot.heat_color(), [255, 200, 200, 255]);
    let a = armory(2);
    assert_eq!((a.gun_selected, a.forced_cooling, a.paused, a.storage_bullet, a.cost), (0, false, false, 2, 10));
}

#[test]
fn choosing_guns_goes_round() {
    let mut a = armory(3);
    assert!(a.select_next());
    assert_eq!(a.gun_selected, 1);
    assert!(a.select_next());
    assert!(a.select_next());
    assert_eq!(a.gun_selected, 0);
    assert!(a.select_previous());
    assert_eq!(a.gun_selected, 2);
    assert!(a.select_previous());
    assert_eq!(a.gun_selected, 1);
    a.paused = true;
    assert!(!a.select_next());
    assert_eq!(a.gun_selected, 1);
    a.paused = false;
    a.guns[1].phase = 1;
    assert!(!a.select_previous());
    assert_eq!(a.gun_selected, 1);
}

#[test]
fn firing_heats_empties_and_cycles() {
    let mut a = armory(1);
    assert!(matches!(a.handle_gun(true, 100, false, false), GunEvent::Fired { overheated: false }));
    assert_eq!((a.guns[0].phase, a.guns[0].temperature, a.guns[0].surplus_bullets), (1, 100, 2));
    assert!(matches!(a.handle_gun(true, 100, false, false), GunEvent::Nothing));
    assert!(matches!(a.handle_gun(false, 0, true, false), GunEvent::ShotEnded));
    assert_eq!(a.guns[0].phase, 2);
    assert!(matches!(a.handle_gun(false, 0, false, true), GunEvent::Readied));
    assert_eq!(a.guns[0].phase, 0);
    assert!(matches!(a.handle_gun(false, 0, false, false), GunEvent::Nothing));
    assert!(matches!(a.handle_gun(true, 200, false, false), GunEvent::Fired { overheated: true }));
    assert_eq!(a.guns[0].temperature, MAX_HEAT);
    assert!(a.forced_cooling);
    assert!(matches!(a.handle_gun(false, 0, true, false), GunEvent::ShotEnded));
    assert!(matches!(a.handle_gun(false, 0, false, true), GunEvent::Nothing));
    a.forced_cooling = false;
    assert!(matches!(a.handle_gun(false, 0, false, true), GunEvent::Readied));
    assert!(matches!(a.handle_gun(true, 1, false, false), GunEvent::Fired { .. }));
    assert_eq!(a.guns[0].surplus_bullets, 0);
    assert!(a.guns[0].reload);
    a.guns[0].phase = 0;
    assert!(matches!(a.handle_gun(true, 1, false, false), GunEvent::Dry));
    a.paused = true;
    assert!(matches!(a.handle_gun(true, 1, false, false), GunEvent::Nothing));
}

#[test]
fn reloading_round_by_round() {
    let mut a = armory(1);
    a.guns[0].surplus_bullets = 0;
    a.guns[0].reload = true;
    assert!(matches!(a.load_round(true), Loading::RoundIn { full: false }));
    assert_eq!((a.guns[0].surplus_bullets, a.storage_bullet, a.guns[0].reload), (1, 1, true));
    assert!(matches!(a.load_round(false), Loading::Closed));
    assert!(!a.guns[0].reload);
    assert!(matches!(a.load_round(true), Loading::Idle));
    a.guns[0].reload = true;
    assert!(matches!(a.load_round(true), Loading::RoundIn { full: false }));
    assert_eq!(a.storage_bullet, 0);
    assert!(matches!(a.load_round(true), Loading::Closed));
    let mut b = armory(1);
    b.guns[0].surplus_bullets = 2;
    b.guns[0].reload = true;
    assert!(matches!(b.load_round(true), Loading::RoundIn { full: true }));
    assert!(!b.guns[0].reload);
    let mut c = armory(1);
    c.guns[0].surplus_bullets = 0;
    c.guns[0].reload = true;
    c.storage_bullet = 0;
    assert!(matches!(c.load_round(false), Loading::Idle));
    assert!(c.guns[0].reload);
}

#[test]
fn guns_cool_down() {
    let mut a = armory(2);
    a.guns[0].temperature = 1;
    a.guns[1].temperature = 5;
    a.forced_cooling = true;
    a.cool();
    assert_eq!((a.guns[0].temperature, a.guns[1].temperature), (0, 4));
    assert!(!a.forced_cooling);
    a.guns[0].temperature = 3;
    a.guns[0].phase = 1;
    a.cool();
    assert_eq!((a.guns[0].temperature, a.guns[1].temperature), (3, 3));
    a.paused = true;
    a.cool();
    assert_eq!((a.guns[0].temperature, a.guns[1].temperature), (3, 3));
}

#[test]
fn cost_recovers_while_running() {
    let mut a = armory(1);
    a.recover_cost();
    assert_eq!(a.cost, 11);
    a.paused = true;
    a.recover_cost();
    assert_eq!(a.cost, 11);
}
