use vstd::prelude::*;

verus! {

/// A fraction `num / den` in `[0, 1]`: how much of an animation has elapsed.
#[derive(Clone, Copy, Debug, PartialEq, Eq, Structural)]
pub struct Progress {
    pub num: u32,
    pub den: u32,
}

impl Progress {
    /// A well-formed fraction has a positive denominator and lies in `[0, 1]`.
    pub open spec fn wf(self) -> bool {
        0 < self.den && self.num <= self.den
    }

    /// The fraction equals one.
    pub open spec fn is_one(self) -> bool {
        self.num == self.den
    }

    /// The fraction equals zero.
    pub open spec fn is_zero(self) -> bool {
        self.num == 0
    }

    /// `self <= other` as rational numbers.
    pub open spec fn le(self, other: Progress) -> bool {
        self.num as int * other.den as int <= other.num as int * self.den as int
    }

    /// `1 - self`, over the same denominator.
    pub open spec fn rest(self) -> Progress {
        Progress { num: (self.den - self.num) as u32, den: self.den }
    }

    pub open spec fn zero_spec() -> Progress {
        Progress { num: 0, den: 1 }
    }

    pub open spec fn one_spec() -> Progress {
        Progress { num: 1, den: 1 }
    }

    #[verifier::when_used_as_spec(zero_spec)]
    pub fn zero() -> (r: Progress)
        ensures
            r == Progress::zero_spec(),
    {
        Progress { num: 0, den: 1 }
    }

    #[verifier::when_used_as_spec(one_spec)]
    pub fn one() -> (r: Progress)
        ensures
            r == Progress::one_spec(),
    {
        Progress { num: 1, den: 1 }
    }

    /// The complement `1 - self`.
    pub fn complement(&self) -> (r: Progress)
        requires
            self.wf(),
        ensures
            r == self.rest(),
            r.wf(),
    {
        Progress { num: self.den - self.num, den: self.den }
    }

    /// Whether the fraction equals one.
    pub fn is_full(&self) -> (r: bool)
        ensures
            r == self.is_one(),
    {
        self.num == self.den
    }
}

/// What one sample of a timer yields: the timer's new start, the progress of
/// its animation and whether it finished on this very sample.
#[derive(Clone, Copy, Debug, PartialEq, Eq, Structural)]
pub struct Sample {
    pub start: Option<u64>,
    pub progress: Progress,
    pub just_completed: bool,
}

/// Milliseconds from `start` to `now`; zero when `start` lies ahead of `now`.
pub open spec fn elapsed(start: u64, now: u64) -> int {
    if start <= now {
        now - start
    } else {
        0
    }
}

/// A timer started at `start` (or not running), sampled at `now`, for an
/// animation that lasts `duration` milliseconds. Once the elapsed time reaches
/// the duration the timer stops, progress is one and completion is reported;
/// before that, progress is the elapsed share of the duration. A timer that is
/// not running reports zero and no completion.
pub open spec fn timer_sample(start: Option<u64>, now: u64, duration: u32) -> Sample {
    match start {
        None => Sample { start: None, progress: Progress::zero_spec(), just_completed: false },
        Some(s) => if elapsed(s, now) >= duration {
            Sample { start: None, progress: Progress::one_spec(), just_completed: true }
        } else {
            Sample {
                start: Some(s),
                progress: Progress { num: elapsed(s, now) as u32, den: duration },
                just_completed: false,
            }
        },
    }
}

/// Samples a timer at `now` (see `timer_sample`).
pub fn advance(start: Option<u64>, now: u64, duration: u32) -> (r: Sample)
    ensures
        r == timer_sample(start, now, duration),
        r.progress.wf(),
{
    match start {
        None => Sample { start: None, progress: Progress::zero(), just_completed: false },
        Some(s) => {
            let passed: u64 = if s <= now {
                now - s
            } else {
                0
            };
            if passed >= duration as u64 {
                Sample { start: None, progress: Progress::one(), just_completed: true }
            } else {
                Sample {
                    start: Some(s),
                    progress: Progress { num: passed as u32, den: duration },
                    just_completed: false,
                }
            }
        },
    }
}

/// While a timer runs, its progress never decreases as time goes on; once it
/// has finished, progress stays at one.
pub proof fn lemma_progress_monotonic(start: u64, t1: u64, t2: u64, duration: u32)
    requires
        t1 <= t2,
    ensures
        timer_sample(Some(start), t1, duration).progress.le(
            timer_sample(Some(start), t2, duration).progress,
        ),
{
    let e1 = elapsed(start, t1);
    let e2 = elapsed(start, t2);
    let d = duration as int;
    let p1 = timer_sample(Some(start), t1, duration).progress;
    let p2 = timer_sample(Some(start), t2, duration).progress;
    assert(e1 <= e2);
    if e2 < d {
        assert(p1.num == e1 && p2.num == e2 && p1.den == d && p2.den == d);
        assert(e1 * d <= e2 * d) by (nonlinear_arith)
            requires
                e1 <= e2,
                0 <= d,
        ;
    } else if e1 < d {
        assert(p1.num == e1 && p1.den == d && p2.num == 1 && p2.den == 1);
    }
}

/// A timer sampled exactly when the elapsed time equals its duration has
/// progress one, reports completion, and is no longer running.
pub proof fn lemma_complete_at_duration(start: u64, duration: u32)
    requires
        start + duration <= u64::MAX,
    ensures
        timer_sample(Some(start), (start + duration) as u64, duration) == (Sample {
            start: None,
            progress: Progress::one_spec(),
            just_completed: true,
        }),
        timer_sample(Some(start), (start + duration) as u64, duration).progress.is_one(),
{
}

/// Completion is reported once: a timer that has just completed no longer runs,
/// and sampling it again reports no completion.
pub proof fn lemma_completes_once(start: u64, t1: u64, t2: u64, duration: u32)
    requires
        timer_sample(Some(start), t1, duration).just_completed,
    ensures
        !timer_sample(timer_sample(Some(start), t1, duration).start, t2, duration).just_completed,
{
}

/// A timer with a zero duration completes with progress one on its first
/// sample, whenever that sample is taken.
pub proof fn lemma_zero_duration_completes(start: u64, now: u64)
    ensures
        timer_sample(Some(start), now, 0).just_completed,
        timer_sample(Some(start), now, 0).progress.is_one(),
        timer_sample(Some(start), now, 0).start.is_none(),
{
}

} // verus!
