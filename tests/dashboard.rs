use egui_tesla::app::{Door, MyApp, Nav, ANIMATION_TEMP_DURATION};
use egui_tesla::timer::Progress;

#[test]
fn dashboard_starts_on_lock_at_rest() {
    let app = MyApp::new();
    assert_eq!(app.nav, Nav::Lock);
    assert!(app.left_lock.is_show && app.right_lock.is_show);
    assert!(app.top_lock.is_show && app.bottom_lock.is_show);
    assert!(!app.charge.is_charged);
    assert!(!app.temp.is_temp);
    assert!(!app.tyre.is_tyre);
    assert!(!app.is_animating());
}

#[test]
fn selecting_the_panel_on_screen_does_nothing() {
    let mut app = MyApp::new();
    let before = app;
    app.select(Nav::Lock, 500);
    assert_eq!(app, before);
    app.select(Nav::Charge, 600);
    let on_charge = app;
    app.select(Nav::Charge, 700);
    assert_eq!(app, on_charge);
}

#[test]
fn lock_then_climate_then_tyre() {
    let mut app = MyApp::new();
    app.select(Nav::Temp, 1_000);
    app.select(Nav::Tyre, 2_000);
    assert_eq!(app.nav, Nav::Tyre);
    assert_eq!(app.temp.animation_temp, Some(2_000));
    assert!(!app.temp.is_temp);
    assert!(app.tyre.is_tyre);
    assert_eq!(app.tyre.animation_tyre_left_up, Some(2_000 + ANIMATION_TEMP_DURATION as u64));
    assert_eq!(app.tyre.animation_tyre_right_up, None);
    assert_eq!(app.tyre.animation_tyre_right_down, None);
    assert_eq!(app.tyre.animation_tyre_left_down, None);
}

#[test]
fn reselecting_tyre_at_the_last_instant_does_nothing() {
    let mut app = MyApp::new();
    app.select(Nav::Tyre, 1_000);
    let on_tyre = app;
    app.select(Nav::Tyre, u64::MAX);
    assert_eq!(app, on_tyre);
}

#[test]
fn leaving_lock_hides_every_lock() {
    let mut app = MyApp::new();
    app.toggle_lock(Door::Left, 100);
    app.select(Nav::Charge, 200);
    for lock in [app.left_lock, app.right_lock, app.top_lock, app.bottom_lock] {
        assert!(!lock.is_show);
        assert_eq!(lock.animation_switch, None);
        assert_eq!(lock.animation_bounce, Some(200));
    }
    assert!(app.charge.is_charged);
    assert_eq!(app.charge.animation_charge, Some(200));
}

#[test]
fn returning_to_lock_sends_charge_out() {
    let mut app = MyApp::new();
    app.select(Nav::Charge, 0);
    app.select(Nav::Lock, 1_000);
    assert!(!app.charge.is_charged);
    assert_eq!(app.charge.animation_charge, Some(1_000));
    assert!(app.left_lock.is_show);
    assert_eq!(app.bottom_lock.animation_bounce, Some(1_000));
}

#[test]
fn tyre_relay_waits_for_the_slide() {
    let mut app = MyApp::new();
    app.select(Nav::Tyre, 1_000);
    app.advance(1_200);
    assert_eq!(app.tyre.animation_tyre_left_up, Some(1_300));
    assert_eq!(app.tyre.progress_left_up, Progress { num: 0, den: 300 });
    app.advance(1_600);
    assert_eq!(app.tyre.animation_tyre_left_up, None);
    assert_eq!(app.tyre.animation_tyre_right_up, Some(1_600));
}

#[test]
fn climate_main_completion_through_the_dashboard() {
    let mut app = MyApp::new();
    app.select(Nav::Temp, 1_000);
    app.advance(1_300);
    assert_eq!(app.temp.animation_temp, None);
    assert_eq!(app.temp.animation_temp_glow, Some(1_300));
    assert_eq!(app.temp.animation_temp_fade, Some(1_300));
}

#[test]
fn toggling_one_door_leaves_the_others() {
    let mut app = MyApp::new();
    app.toggle_lock(Door::Top, 50);
    assert!(!app.top_lock.is_locked);
    assert_eq!(app.top_lock.animation_switch, Some(50));
    assert!(app.left_lock.is_locked && app.right_lock.is_locked && app.bottom_lock.is_locked);
    assert!(app.is_animating());
}

#[test]
fn settled_dashboard_stays_put() {
    let mut app = MyApp::new();
    app.select(Nav::Charge, 0);
    app.advance(700);
    app.advance(1_000);
    assert!(!app.is_animating());
    let settled = app;
    app.advance(50_000);
    assert_eq!(app, settled);
    assert_eq!(app.charge.charge_progress(), Progress::one());
}

#[test]
fn exactly_one_panel_active_after_any_selection() {
    let mut app = MyApp::new();
    let mut now = 0u64;
    for target in [Nav::Charge, Nav::Tyre, Nav::Temp, Nav::Lock, Nav::Tyre, Nav::Charge] {
        now += 100;
        app.select(target, now);
        app.advance(now + 50);
        let active = [
            app.left_lock.is_show,
            app.charge.is_charged,
            app.temp.is_temp,
            app.tyre.is_tyre,
        ];
        assert_eq!(active.iter().filter(|a| **a).count(), 1);
        assert_eq!(app.nav, target);
    }
}
