use egui_tesla::lock::LockState;
use egui_tesla::timer::Progress;
use egui_tesla::utils::Ratio;

#[test]
fn new_lock_is_locked_shown_and_idle() {
    let l = LockState::new();
    assert!(l.is_locked);
    assert!(l.is_show);
    assert_eq!(l.animation_switch, None);
    assert_eq!(l.animation_bounce, None);
    assert_eq!(l.icon_opacity(), Progress::one());
    assert_eq!(l.travel(), Progress::zero());
    assert!(!l.is_morphing());
}

#[test]
fn click_toggles_lock_and_starts_morph() {
    let mut l = LockState::new();
    l.animation_bounce = Some(10);
    l.toggle(100);
    assert!(!l.is_locked);
    assert_eq!(l.animation_switch, Some(100));
    assert_eq!(l.animation_bounce, Some(10));
    assert!(l.is_morphing());
    l.toggle(200);
    assert!(l.is_locked);
    assert_eq!(l.animation_switch, Some(200));
}

#[test]
fn incoming_icon_never_shrinks_below_zero() {
    let mut l = LockState::new();
    l.set_progress_switch(Progress { num: 1, den: 10 });
    assert_eq!(l.scale_up.num, 0);
    assert_eq!(l.scale_down, Progress { num: 9, den: 10 });
    assert_eq!(l.progress_switch, Progress { num: 1, den: 10 });
}

#[test]
fn morph_sizes_need_not_sum_to_one() {
    let mut l = LockState::new();
    l.set_progress_switch(Progress { num: 1, den: 10 });
    let up = l.scale_up.num as f64 / l.scale_up.den as f64;
    let down = l.scale_down.num as f64 / l.scale_down.den as f64;
    assert!((up + down - 1.0).abs() > 0.05);
}

#[test]
fn morph_overshoot_above_one_is_kept() {
    let mut l = LockState::new();
    l.set_progress_switch(Progress { num: 9, den: 10 });
    assert_eq!(l.scale_up, Ratio { num: 10_375_185_520, den: 10_000_000_000 });
    assert_eq!(l.scale_down, Progress { num: 1, den: 10 });
}

#[test]
fn switch_timer_drives_the_morph_and_stops() {
    let mut l = LockState::new();
    l.toggle(1_000);
    l.animate_switch(1_150, 300);
    assert_eq!(l.progress_switch, Progress { num: 150, den: 300 });
    assert_eq!(l.scale_down, Progress { num: 150, den: 300 });
    assert_eq!(l.scale_up.num * 2, l.scale_up.den);
    assert_eq!(l.icon_opacity(), Progress::one());
    l.animate_switch(1_300, 300);
    assert_eq!(l.animation_switch, None);
    assert_eq!(l.progress_switch, Progress::one());
    assert_eq!(l.scale_up, Ratio { num: 10_000_000, den: 10_000_000 });
    assert_eq!(l.scale_down, Progress { num: 0, den: 1 });
    assert!(!l.is_locked);
    let settled = l;
    l.animate_switch(9_000, 300);
    assert_eq!(l, settled);
}

#[test]
fn hiding_slide_fades_out_and_moves_to_centre() {
    let mut l = LockState::new();
    l.toggle(0);
    l.set_shown(false, 1_000);
    assert_eq!(l.animation_switch, None);
    assert_eq!(l.animation_bounce, Some(1_000));
    l.animate_bounce(1_100, 500);
    assert_eq!(l.progress_bounce, Progress { num: 100, den: 500 });
    assert_eq!(l.transition_alpha, Progress { num: 400, den: 500 });
    assert_eq!(l.icon_opacity(), Progress { num: 400, den: 500 });
    assert_eq!(l.travel(), Progress { num: 100, den: 500 });
    l.animate_bounce(1_500, 500);
    assert_eq!(l.animation_bounce, None);
    assert_eq!(l.transition_alpha, Progress::zero());
    assert_eq!(l.progress_bounce, Progress::one());
    assert_eq!(l.icon_opacity(), Progress::zero());
    assert_eq!(l.travel(), Progress::one());
}

#[test]
fn showing_slide_fades_in_and_returns_home() {
    let mut l = LockState::new();
    l.is_show = false;
    l.set_shown(true, 2_000);
    l.animate_bounce(2_100, 500);
    assert_eq!(l.transition_alpha, Progress { num: 100, den: 500 });
    assert_eq!(l.travel(), Progress { num: 400, den: 500 });
    l.animate_bounce(2_600, 500);
    assert_eq!(l.transition_alpha, Progress::one());
    assert_eq!(l.icon_opacity(), Progress::one());
    assert_eq!(l.travel(), Progress::zero());
}
