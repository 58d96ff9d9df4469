use vstd::prelude::*;
use crate::timer::{advance, timer_sample, Progress};
use crate::utils::{ease_in_out_back, ease_den, ease_num, Ratio};

verus! {

/// One door-lock icon: locked or unlocked, shown or hidden, with a Switch
/// timer for the lock/unlock icon morph and a Bounce timer for the slide
/// between its parked place and the centre of the screen.
#[derive(Clone, Copy, Debug, PartialEq, Eq, Structural)]
pub struct LockState {
    pub is_locked: bool,
    pub is_show: bool,
    /// Size of the incoming icon during the morph.
    pub scale_up: Ratio,
    /// Size of the outgoing icon during the morph.
    pub scale_down: Progress,
    pub progress_switch: Progress,
    pub animation_switch: Option<u64>,
    pub progress_bounce: Progress,
    pub animation_bounce: Option<u64>,
    /// Opacity while the Bounce timer runs.
    pub transition_alpha: Progress,
}

/// Size of the incoming icon at morph progress `p`: the eased value, but
/// never below zero. Overshoot above one is kept.
pub open spec fn grow_scale(p: Progress) -> Ratio {
    if ease_num(p.num as int, p.den as int) < 0 {
        Ratio { num: 0, den: ease_den(p.den as int) as i128 }
    } else {
        Ratio {
            num: ease_num(p.num as int, p.den as int) as i128,
            den: ease_den(p.den as int) as i128,
        }
    }
}

impl LockState {
    pub open spec fn wf(self) -> bool {
        &&& self.scale_up.wf()
        &&& self.scale_up.num >= 0
        &&& self.scale_down.wf()
        &&& self.progress_switch.wf()
        &&& self.progress_bounce.wf()
        &&& self.transition_alpha.wf()
    }

    pub open spec fn initial() -> LockState {
        LockState {
            is_locked: true,
            is_show: true,
            scale_up: Ratio { num: 0, den: 1 },
            scale_down: Progress::one_spec(),
            progress_switch: Progress::zero_spec(),
            animation_switch: None,
            progress_bounce: Progress::zero_spec(),
            animation_bounce: None,
            transition_alpha: Progress::one_spec(),
        }
    }

    /// The morph drawn at progress `p`.
    pub open spec fn with_switch_progress(self, p: Progress) -> LockState {
        LockState { progress_switch: p, scale_up: grow_scale(p), scale_down: p.rest(), ..self }
    }

    /// The state after the Switch timer is sampled at `now`. On completion the
    /// timer stops and the morph settles at progress one: the incoming icon at
    /// full size and the outgoing one at zero.
    pub open spec fn switch_advanced(self, now: u64, duration: u32) -> LockState {
        let s = timer_sample(self.animation_switch, now, duration);
        if self.animation_switch.is_none() {
            self
        } else if s.just_completed {
            LockState { animation_switch: None, ..self.with_switch_progress(Progress::one_spec()) }
        } else {
            self.with_switch_progress(s.progress)
        }
    }

    /// The state after the Bounce timer is sampled at `now`. While it runs the
    /// opacity follows its progress (reversed when hiding); on completion the
    /// opacity snaps to one when shown and to zero when hidden.
    pub open spec fn bounce_advanced(self, now: u64, duration: u32) -> LockState {
        let s = timer_sample(self.animation_bounce, now, duration);
        if self.animation_bounce.is_none() {
            self
        } else if s.just_completed {
            LockState {
                animation_bounce: None,
                transition_alpha: if self.is_show {
                    Progress::one_spec()
                } else {
                    Progress::zero_spec()
                },
                progress_bounce: Progress::one_spec(),
                ..self
            }
        } else {
            LockState {
                progress_bounce: s.progress,
                transition_alpha: if self.is_show {
                    s.progress
                } else {
                    s.progress.rest()
                },
                ..self
            }
        }
    }

    /// A click on the icon: the lock state flips and the morph restarts.
    pub open spec fn toggled(self, now: u64) -> LockState {
        LockState { is_locked: !self.is_locked, animation_switch: Some(now), ..self }
    }

    /// Showing or hiding the icon: any morph is dropped and the slide restarts.
    pub open spec fn shown(self, show: bool, now: u64) -> LockState {
        LockState { is_show: show, animation_switch: None, animation_bounce: Some(now), ..self }
    }

    /// A locked, shown icon with no animation running.
    pub fn new() -> (r: LockState)
        ensures
            r == LockState::initial(),
            r.wf(),
    {
        LockState {
            is_locked: true,
            is_show: true,
            scale_up: Ratio { num: 0, den: 1 },
            scale_down: Progress::one(),
            progress_switch: Progress::zero(),
            animation_switch: None,
            progress_bounce: Progress::zero(),
            animation_bounce: None,
            transition_alpha: Progress::one(),
        }
    }

    /// Sets the morph progress: the incoming icon's size is the eased
    /// progress clamped below at zero, the outgoing icon's size is `1 - p`.
    pub fn set_progress_switch(&mut self, progress: Progress)
        requires
            progress.wf(),
        ensures
            *final(self) == old(self).with_switch_progress(progress),
            final(self).scale_up.num >= 0,
            old(self).wf() ==> final(self).wf(),
    {
        self.progress_switch = progress;
        let eased = ease_in_out_back(progress);
        if eased.num < 0 {
            self.scale_up = Ratio { num: 0, den: eased.den };
        } else {
            self.scale_up = eased;
        }
        self.scale_down = progress.complement();
    }

    /// Samples the Switch timer at `now`.
    pub fn animate_switch(&mut self, now: u64, animation_duration: u32)
        requires
            old(self).wf(),
        ensures
            *final(self) == old(self).switch_advanced(now, animation_duration),
            final(self).wf(),
    {
        if self.animation_switch.is_some() {
            let s = advance(self.animation_switch, now, animation_duration);
            self.set_progress_switch(s.progress);
            if s.just_completed {
                self.animation_switch = None;
            }
        }
    }

    /// Samples the Bounce timer at `now`.
    pub fn animate_bounce(&mut self, now: u64, animation_duration: u32)
        requires
            old(self).wf(),
        ensures
            *final(self) == old(self).bounce_advanced(now, animation_duration),
            final(self).wf(),
    {
        if self.animation_bounce.is_some() {
            let s = advance(self.animation_bounce, now, animation_duration);
            if s.just_completed {
                self.animation_bounce = None;
                self.transition_alpha = if self.is_show {
                    Progress::one()
                } else {
                    Progress::zero()
                };
                self.progress_bounce = Progress::one();
            } else {
                self.progress_bounce = s.progress;
                self.transition_alpha = if self.is_show {
                    s.progress
                } else {
                    s.progress.complement()
                };
            }
        }
    }

    /// Flips the lock state and restarts the morph; the slide is untouched.
    pub fn toggle(&mut self, now: u64)
        ensures
            *final(self) == old(self).toggled(now),
            final(self).is_locked == !old(self).is_locked,
            final(self).animation_switch == Some(now),
            final(self).animation_bounce == old(self).animation_bounce,
            old(self).wf() ==> final(self).wf(),
    {
        self.is_locked = !self.is_locked;
        self.animation_switch = Some(now);
    }

    /// Shows (`show`) or hides the icon, sliding from where it stands.
    pub fn set_shown(&mut self, show: bool, now: u64)
        ensures
            *final(self) == old(self).shown(show, now),
            old(self).wf() ==> final(self).wf(),
    {
        self.is_show = show;
        self.animation_switch = None;
        self.animation_bounce = Some(now);
    }

    /// Whether both icons are drawn, morphing one into the other.
    pub fn is_morphing(&self) -> (r: bool)
        ensures
            r == self.animation_switch.is_some(),
    {
        self.animation_switch.is_some()
    }

    /// Opacity of the icon: fully opaque during the morph, the slide's
    /// opacity while the slide runs, and otherwise one when shown and zero
    /// when hidden.
    pub fn icon_opacity(&self) -> (r: Progress)
        ensures
            r == (if self.animation_switch.is_some() {
                Progress::one_spec()
            } else if self.animation_bounce.is_some() {
                self.transition_alpha
            } else if self.is_show {
                Progress::one_spec()
            } else {
                Progress::zero_spec()
            }),
    {
        if self.animation_switch.is_some() {
            Progress::one()
        } else if self.animation_bounce.is_some() {
            self.transition_alpha
        } else if self.is_show {
            Progress::one()
        } else {
            Progress::zero()
        }
    }

    /// Where the icon stands on its way from its parked place (zero) to the
    /// centre (one). Shown icons travel from the centre back to their place,
    /// hidden ones from their place to the centre; at rest an icon stands at
    /// the end of its last trip.
    pub fn travel(&self) -> (r: Progress)
        requires
            self.wf(),
        ensures
            r == (if self.animation_bounce.is_some() {
                if self.is_show {
                    self.progress_bounce.rest()
                } else {
                    self.progress_bounce
                }
            } else if self.is_show {
                Progress::zero_spec()
            } else {
                Progress::one_spec()
            }),
            r.wf(),
    {
        if self.animation_bounce.is_some() {
            if self.is_show {
                self.progress_bounce.complement()
            } else {
                self.progress_bounce
            }
        } else if self.is_show {
            Progress::zero()
        } else {
            Progress::one()
        }
    }
}

/// A morph started at `start` and sampled exactly one duration later has
/// stopped at progress one: the incoming icon at full size, the outgoing one
/// at zero, and the lock state and the slide untouched.
pub proof fn lemma_switch_ends_at_one(lock: LockState, start: u64, duration: u32)
    requires
        lock.animation_switch == Some(start),
        start + duration <= u64::MAX,
    ensures
        ({
            let after = lock.switch_advanced((start + duration) as u64, duration);
            &&& after.animation_switch.is_none()
            &&& after.progress_switch.is_one()
            &&& after.scale_up.num == after.scale_up.den
            &&& after.scale_up.wf()
            &&& after.scale_down.is_zero()
            &&& after.is_locked == lock.is_locked
            &&& after.is_show == lock.is_show
            &&& after.animation_bounce == lock.animation_bounce
        }),
{
    assert(ease_num(1, 1) == ease_den(1));
}

} // verus!
