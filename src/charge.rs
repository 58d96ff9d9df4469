use vstd::prelude::*;
use crate::timer::{advance, timer_sample, Progress};

verus! {

/// The charging panel: whether it is the panel on screen, and one Charge
/// timer that reveals or hides it.
#[derive(Clone, Copy, Debug, PartialEq, Eq, Structural)]
pub struct ChargeState {
    pub animation_charge: Option<u64>,
    pub progress_charge: Progress,
    pub is_charged: bool,
}

impl ChargeState {
    pub open spec fn wf(self) -> bool {
        self.progress_charge.wf()
    }

    pub open spec fn initial() -> ChargeState {
        ChargeState {
            animation_charge: None,
            progress_charge: Progress::zero_spec(),
            is_charged: false,
        }
    }

    /// The state after the Charge timer is sampled at `now`. On completion
    /// the timer stops and the stored progress is one.
    pub open spec fn charge_advanced(self, now: u64, duration: u32) -> ChargeState {
        let s = timer_sample(self.animation_charge, now, duration);
        if self.animation_charge.is_none() {
            self
        } else if s.just_completed {
            ChargeState { animation_charge: None, progress_charge: Progress::one_spec(), ..self }
        } else {
            ChargeState { progress_charge: s.progress, ..self }
        }
    }

    /// Entering (`charged`) or leaving the panel: the Charge timer restarts.
    pub open spec fn charged(self, charged: bool, now: u64) -> ChargeState {
        ChargeState { is_charged: charged, animation_charge: Some(now), ..self }
    }

    /// Progress of the panel: the stored progress while the timer runs, and
    /// one when it does not, whether or not the panel is on screen.
    pub open spec fn progress_spec(self) -> Progress {
        if self.animation_charge.is_none() {
            Progress::one_spec()
        } else {
            self.progress_charge
        }
    }

    /// The panel is hidden and no timer runs.
    pub fn new() -> (r: ChargeState)
        ensures
            r == ChargeState::initial(),
            r.wf(),
    {
        ChargeState { animation_charge: None, progress_charge: Progress::zero(), is_charged: false }
    }

    /// Samples the Charge timer at `now`.
    pub fn animate_charge(&mut self, now: u64, animation_duration: u32)
        requires
            old(self).wf(),
        ensures
            *final(self) == old(self).charge_advanced(now, animation_duration),
            final(self).wf(),
    {
        if self.animation_charge.is_some() {
            let s = advance(self.animation_charge, now, animation_duration);
            if s.just_completed {
                self.animation_charge = None;
                self.progress_charge = Progress::one();
            } else {
                self.progress_charge = s.progress;
            }
        }
    }

    /// Brings the panel in (`charged`) or sends it out, restarting the timer.
    pub fn set_charged(&mut self, charged: bool, now: u64)
        ensures
            *final(self) == old(self).charged(charged, now),
            old(self).wf() ==> final(self).wf(),
    {
        self.is_charged = charged;
        self.animation_charge = Some(now);
    }

    /// Raw progress of the panel, which places the text lines; one when no
    /// timer runs.
    pub fn charge_progress(&self) -> (r: Progress)
        ensures
            r == self.progress_spec(),
            self.animation_charge.is_none() ==> r.is_one(),
    {
        if self.animation_charge.is_none() {
            Progress::one()
        } else {
            self.progress_charge
        }
    }

    /// Opacity of the battery icon and the text: the progress while the
    /// panel comes in, its complement while it goes out, one at rest.
    pub fn opacity(&self) -> (r: Progress)
        requires
            self.wf(),
        ensures
            r == (if self.animation_charge.is_none() {
                Progress::one_spec()
            } else if self.is_charged {
                self.progress_charge
            } else {
                self.progress_charge.rest()
            }),
            r.wf(),
    {
        if self.animation_charge.is_none() {
            Progress::one()
        } else if self.is_charged {
            self.progress_charge
        } else {
            self.progress_charge.complement()
        }
    }

    /// Whether the text lines travel their path backwards: while the panel
    /// goes out. They still move by the raw progress.
    pub fn text_reversed(&self) -> (r: bool)
        ensures
            r == (self.animation_charge.is_some() && !self.is_charged),
    {
        self.animation_charge.is_some() && !self.is_charged
    }

    /// Whether the panel is drawn at all: when it is on screen or moving.
    pub fn is_visible(&self) -> (r: bool)
        ensures
            r == (self.is_charged || self.animation_charge.is_some()),
    {
        self.is_charged || self.animation_charge.is_some()
    }
}

} // verus!
