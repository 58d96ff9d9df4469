use egui_tesla::timer::Progress;
use egui_tesla::tyre::{Slot, SlotView, TyreState};

fn tick(t: &mut TyreState, now: u64) {
    t.animate_tyre_left_up(now, 300);
    t.animate_tyre_right_up(now, 300);
    t.animate_tyre_left_down(now, 300);
    t.animate_tyre_right_down(now, 300);
}

#[test]
fn open_relay_hands_over_slot_by_slot() {
    let mut t = TyreState::new();
    t.open(1_000);
    assert!(t.is_tyre);
    tick(&mut t, 1_300);
    assert_eq!(t.animation_tyre_left_up, None);
    assert_eq!(t.progress_left_up, Progress::one());
    assert_eq!(t.animation_tyre_right_up, Some(1_300));
    tick(&mut t, 1_600);
    assert_eq!(t.animation_tyre_right_up, None);
    assert_eq!(t.progress_right_up, Progress::one());
    assert_eq!(t.animation_tyre_right_down, Some(1_600));
    assert_eq!(t.animation_tyre_left_down, None);
    tick(&mut t, 1_900);
    assert_eq!(t.animation_tyre_right_down, None);
    assert_eq!(t.animation_tyre_left_down, Some(1_900));
    tick(&mut t, 2_200);
    assert_eq!(t.animation_tyre_left_down, None);
    assert_eq!(t.progress_left_down, Progress::one());
    assert_eq!(t.animation_tyre_left_up, None);
    assert_eq!(t.animation_tyre_right_up, None);
    assert_eq!(t.animation_tyre_right_down, None);
}

#[test]
fn last_slot_starts_no_further_timer() {
    let mut t = TyreState::new();
    t.animation_tyre_left_down = Some(0);
    t.animate_tyre_left_down(300, 300);
    assert_eq!(t.animation_tyre_left_down, None);
    assert_eq!(t.animation_tyre_left_up, None);
    assert_eq!(t.animation_tyre_right_up, None);
    assert_eq!(t.animation_tyre_right_down, None);
}

#[test]
fn running_slot_sets_earlier_to_one_and_later_to_zero() {
    let mut t = TyreState::new();
    t.progress_left_down = Progress { num: 1, den: 3 };
    t.progress_right_down = Progress { num: 1, den: 3 };
    t.animation_tyre_right_up = Some(0);
    t.animate_tyre_right_up(60, 300);
    assert_eq!(t.progress_right_up, Progress { num: 60, den: 300 });
    assert_eq!(t.progress_left_up, Progress::one());
    assert_eq!(t.progress_right_down, Progress::zero());
    assert_eq!(t.progress_left_down, Progress::zero());
}

#[test]
fn views_while_opening() {
    let mut t = TyreState::new();
    t.open(0);
    tick(&mut t, 100);
    assert_eq!(t.slot_view(Slot::LeftUp), SlotView::Scaled(Progress { num: 100, den: 300 }));
    assert_eq!(t.slot_view(Slot::RightUp), SlotView::Hidden);
    assert_eq!(t.slot_view(Slot::LeftDown), SlotView::Hidden);
    tick(&mut t, 300);
    tick(&mut t, 400);
    assert_eq!(t.slot_view(Slot::LeftUp), SlotView::Detailed);
    assert_eq!(t.slot_view(Slot::RightUp), SlotView::Scaled(Progress { num: 100, den: 300 }));
    assert_eq!(t.slot_view(Slot::RightDown), SlotView::Hidden);
    assert_eq!(t.slot_view(Slot::LeftDown), SlotView::Hidden);
}

#[test]
fn closing_restarts_only_the_first_slot() {
    let mut t = TyreState::new();
    t.open(0);
    for now in [300u64, 600, 900, 1_200] {
        tick(&mut t, now);
    }
    t.close(2_000);
    assert!(!t.is_tyre);
    assert_eq!(t.animation_tyre_left_up, Some(2_000));
    assert_eq!(t.animation_tyre_right_up, None);
    assert_eq!(t.animation_tyre_right_down, None);
    assert_eq!(t.animation_tyre_left_down, None);
    tick(&mut t, 2_100);
    assert_eq!(t.slot_view(Slot::LeftUp), SlotView::Scaled(Progress { num: 200, den: 300 }));
    assert_eq!(t.slot_view(Slot::RightUp), SlotView::Outline);
    assert_eq!(t.slot_view(Slot::LeftDown), SlotView::Outline);
}

#[test]
fn closed_idle_panel_shows_nothing() {
    let t = TyreState::new();
    for slot in [Slot::LeftUp, Slot::RightUp, Slot::RightDown, Slot::LeftDown] {
        assert_eq!(t.slot_view(slot), SlotView::Hidden);
    }
}
