use targeted_vector::splash::{splash_slide, stage_wait_seconds, Splash};

#[test]
fn slides_and_waits_of_the_stages() {
    assert_eq!(splash_slide(0), 0);
    assert_eq!(splash_slide(1), 0);
    assert_eq!(splash_slide(2), 1);
    assert_eq!(splash_slide(3), 1);
    assert_eq!(splash_slide(4), 2);
    assert_eq!(splash_slide(5), 2);
    assert_eq!(splash_slide(-1), 0);
    let waits: Vec<Option<u32>> = (0..7).map(stage_wait_seconds).collect();
    assert_eq!(waits, vec![Some(4), Some(3), Some(2), Some(3), Some(2), Some(3), None]);
}

#[test]
fn a_slide_fades_in_before_the_stage_moves_on() {
    let mut s = Splash { progress: 0, image_alpha: 0, text_alpha: 0 };
    let t = s.tick(true, true);
    assert!(!t.advanced && !t.finished && t.faded);
    assert_eq!((s.image_alpha, s.text_alpha), (5, 0));
    let t = s.tick(true, false);
    assert!(!t.advanced && !t.faded);
    assert_eq!((s.image_alpha, s.text_alpha), (5, 0));
    s.image_alpha = 255;
    let t = s.tick(true, true);
    assert!(t.faded && !t.advanced);
    assert_eq!(s.text_alpha, 5);
}

#[test]
fn a_settled_stage_moves_on_once_it_has_waited() {
    let mut s = Splash { progress: 0, image_alpha: 255, text_alpha: 255 };
    let t = s.tick(false, false);
    assert!(!t.advanced);
    assert_eq!(s.progress, 0);
    let t = s.tick(true, true);
    assert!(t.advanced && !t.finished && t.faded);
    assert_eq!(s.progress, 1);
    assert_eq!((s.image_alpha, s.text_alpha), (250, 255));
}

#[test]
fn the_last_stage_ends_the_launch_screen() {
    let mut s = Splash { progress: 5, image_alpha: 0, text_alpha: 0 };
    let t = s.tick(true, true);
    assert!(t.finished && !t.advanced && !t.faded);
    assert_eq!(s.progress, 5);
    let mut s = Splash { progress: 5, image_alpha: 5, text_alpha: 0 };
    let t = s.tick(true, true);
    assert!(!t.finished && t.faded);
    assert_eq!(s.image_alpha, 0);
}
