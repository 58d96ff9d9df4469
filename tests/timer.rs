use egui_tesla::timer::{advance, Progress, Sample};
use egui_tesla::utils::{ease_in_out_back, Ratio};

fn value(p: Progress) -> f64 {
    p.num as f64 / p.den as f64
}

#[test]
fn idle_timer_reports_zero_without_completion() {
    let s = advance(None, 5_000, 300);
    assert_eq!(s, Sample { start: None, progress: Progress::zero(), just_completed: false });
}

#[test]
fn running_timer_reports_elapsed_share() {
    let s = advance(Some(1_000), 1_150, 300);
    assert_eq!(s.start, Some(1_000));
    assert_eq!(s.progress, Progress { num: 150, den: 300 });
    assert!(!s.just_completed);
}

#[test]
fn timer_completes_exactly_at_duration() {
    let before = advance(Some(1_000), 1_299, 300);
    assert_eq!(before.progress, Progress { num: 299, den: 300 });
    assert!(!before.just_completed);
    let at = advance(Some(1_000), 1_300, 300);
    assert_eq!(at, Sample { start: None, progress: Progress::one(), just_completed: true });
}

#[test]
fn zero_duration_completes_on_first_sample() {
    let s = advance(Some(42), 42, 0);
    assert!(s.just_completed);
    assert_eq!(s.progress, Progress::one());
    assert_eq!(s.start, None);
    let early = advance(Some(42), 10, 0);
    assert!(early.just_completed);
    assert_eq!(early.progress, Progress::one());
}

#[test]
fn timer_started_in_the_future_reads_zero() {
    let s = advance(Some(2_000), 1_500, 300);
    assert_eq!(s.start, Some(2_000));
    assert_eq!(s.progress, Progress { num: 0, den: 300 });
    assert!(!s.just_completed);
}

#[test]
fn progress_never_decreases_over_time() {
    let mut last = 0.0;
    for now in 900u64..1_400 {
        let p = value(advance(Some(1_000), now, 300).progress);
        assert!(p >= last);
        assert!((0.0..=1.0).contains(&p));
        last = p;
    }
    assert_eq!(last, 1.0);
}

#[test]
fn completion_is_reported_once() {
    let first = advance(Some(0), 500, 300);
    assert!(first.just_completed);
    let second = advance(first.start, 600, 300);
    assert!(!second.just_completed);
    assert_eq!(second.start, None);
}

#[test]
fn complement_of_progress() {
    let p = Progress { num: 120, den: 300 };
    assert_eq!(p.complement(), Progress { num: 180, den: 300 });
    assert!(!p.is_full());
    assert!(Progress { num: 7, den: 7 }.is_full());
}

#[test]
fn easing_fixed_points() {
    let at_zero = ease_in_out_back(Progress { num: 0, den: 300 });
    assert_eq!(at_zero.num, 0);
    let at_half = ease_in_out_back(Progress { num: 1, den: 2 });
    assert_eq!(at_half, Ratio { num: 40_000_000, den: 80_000_000 });
    let at_one = ease_in_out_back(Progress { num: 300, den: 300 });
    assert_eq!(at_one.num, at_one.den);
}

#[test]
fn easing_dips_below_zero_early() {
    let r = ease_in_out_back(Progress { num: 1, den: 10 });
    assert_eq!(r, Ratio { num: -375_185_520, den: 10_000_000_000 });
}

#[test]
fn easing_overshoots_one_late() {
    let r = ease_in_out_back(Progress { num: 9, den: 10 });
    assert_eq!(r, Ratio { num: 10_375_185_520, den: 10_000_000_000 });
}

#[test]
fn easing_matches_the_curve() {
    let c1 = 1.70158f64;
    let c2 = c1 * 1.525;
    for n in 0u32..=300 {
        let t = n as f64 / 300.0;
        let expected = if t < 0.5 {
            ((2.0 * t).powi(2) * ((c2 + 1.0) * 2.0 * t - c2)) / 2.0
        } else {
            ((2.0 * t - 2.0).powi(2) * ((c2 + 1.0) * (t * 2.0 - 2.0) + c2) + 2.0) / 2.0
        };
        let r = ease_in_out_back(Progress { num: n, den: 300 });
        let got = r.num as f64 / r.den as f64;
        assert!((got - expected).abs() < 1e-9, "t = {}: {} vs {}", t, got, expected);
    }
}

#[test]
fn easing_with_largest_denominator() {
    let d = u32::MAX;
    let r = ease_in_out_back(Progress { num: d / 10, den: d });
    assert!(r.num < 0);
    let s = ease_in_out_back(Progress { num: d, den: d });
    assert_eq!(s.num, s.den);
    let h = ease_in_out_back(Progress { num: d - 1, den: d });
    assert!(h.num > 0);
}
