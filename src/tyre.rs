use vstd::prelude::*;
use crate::timer::{advance, timer_sample, Progress};

verus! {

/// One of the four tyre boxes, in the order in which they are revealed.
#[derive(Clone, Copy, Debug, PartialEq, Eq, Structural)]
pub enum Slot {
    LeftUp,
    RightUp,
    RightDown,
    LeftDown,
}

/// What a tyre box shows.
#[derive(Clone, Copy, Debug, PartialEq, Eq, Structural)]
pub enum SlotView {
    /// Nothing.
    Hidden,
    /// The box outline, scaled by the given fraction.
    Scaled(Progress),
    /// The full-size outline, without readings.
    Outline,
    /// The full-size box with its readings.
    Detailed,
}

/// Position of a slot in the relay.
pub open spec fn slot_index(slot: Slot) -> int {
    match slot {
        Slot::LeftUp => 0,
        Slot::RightUp => 1,
        Slot::RightDown => 2,
        Slot::LeftDown => 3,
    }
}

/// The tyre panel: whether it is on screen, and four timers forming a relay
/// LeftUp, RightUp, RightDown, LeftDown, where each one's completion starts
/// the next.
#[derive(Clone, Copy, Debug, PartialEq, Eq, Structural)]
pub struct TyreState {
    pub is_tyre: bool,
    pub animation_tyre_left_up: Option<u64>,
    pub animation_tyre_right_up: Option<u64>,
    pub animation_tyre_left_down: Option<u64>,
    pub animation_tyre_right_down: Option<u64>,
    pub progress_left_up: Progress,
    pub progress_right_up: Progress,
    pub progress_left_down: Progress,
    pub progress_right_down: Progress,
}

impl TyreState {
    pub open spec fn wf(self) -> bool {
        &&& self.progress_left_up.wf()
        &&& self.progress_right_up.wf()
        &&& self.progress_left_down.wf()
        &&& self.progress_right_down.wf()
    }

    pub open spec fn initial() -> TyreState {
        TyreState {
            is_tyre: false,
            animation_tyre_left_up: None,
            animation_tyre_right_up: None,
            animation_tyre_left_down: None,
            animation_tyre_right_down: None,
            progress_left_up: Progress::zero_spec(),
            progress_right_up: Progress::zero_spec(),
            progress_left_down: Progress::zero_spec(),
            progress_right_down: Progress::zero_spec(),
        }
    }

    /// The timer of `slot`.
    pub open spec fn timer_of(self, slot: Slot) -> Option<u64> {
        match slot {
            Slot::LeftUp => self.animation_tyre_left_up,
            Slot::RightUp => self.animation_tyre_right_up,
            Slot::RightDown => self.animation_tyre_right_down,
            Slot::LeftDown => self.animation_tyre_left_down,
        }
    }

    /// The stored progress of `slot`.
    pub open spec fn progress_of(self, slot: Slot) -> Progress {
        match slot {
            Slot::LeftUp => self.progress_left_up,
            Slot::RightUp => self.progress_right_up,
            Slot::RightDown => self.progress_right_down,
            Slot::LeftDown => self.progress_left_down,
        }
    }

    /// Some slot before `slot` in the relay has its timer running.
    pub open spec fn earlier_running(self, slot: Slot) -> bool {
        exists|k: Slot| slot_index(k) < slot_index(slot) && (#[trigger] self.timer_of(k)).is_some()
    }

    /// Whether any of the four timers runs.
    pub open spec fn running(self) -> bool {
        self.animation_tyre_left_up.is_some() || self.animation_tyre_right_up.is_some()
            || self.animation_tyre_right_down.is_some() || self.animation_tyre_left_down.is_some()
    }

    /// The state after LeftUp is sampled at `now`: on completion it stops at
    /// one and hands over to RightUp; while it runs, the later slots read zero.
    pub open spec fn left_up_advanced(self, now: u64, duration: u32) -> TyreState {
        let s = timer_sample(self.animation_tyre_left_up, now, duration);
        if self.animation_tyre_left_up.is_none() {
            self
        } else if s.just_completed {
            TyreState {
                animation_tyre_left_up: None,
                animation_tyre_right_up: Some(now),
                progress_left_up: Progress::one_spec(),
                ..self
            }
        } else {
            TyreState {
                progress_left_up: s.progress,
                progress_right_up: Progress::zero_spec(),
                progress_left_down: Progress::zero_spec(),
                progress_right_down: Progress::zero_spec(),
                ..self
            }
        }
    }

    /// The state after RightUp is sampled at `now`: on completion it stops at
    /// one and hands over to RightDown; while it runs, the earlier slot reads
    /// one and the later slots zero.
    pub open spec fn right_up_advanced(self, now: u64, duration: u32) -> TyreState {
        let s = timer_sample(self.animation_tyre_right_up, now, duration);
        if self.animation_tyre_right_up.is_none() {
            self
        } else if s.just_completed {
            TyreState {
                animation_tyre_right_up: None,
                animation_tyre_right_down: Some(now),
                progress_right_up: Progress::one_spec(),
                ..self
            }
        } else {
            TyreState {
                progress_right_up: s.progress,
                progress_left_up: Progress::one_spec(),
                progress_left_down: Progress::zero_spec(),
                progress_right_down: Progress::zero_spec(),
                ..self
            }
        }
    }

    /// The state after RightDown is sampled at `now`: on completion it stops
    /// at one and hands over to LeftDown; while it runs, the earlier slots
    /// read one and the last slot zero.
    pub open spec fn right_down_advanced(self, now: u64, duration: u32) -> TyreState {
        let s = timer_sample(self.animation_tyre_right_down, now, duration);
        if self.animation_tyre_right_down.is_none() {
            self
        } else if s.just_completed {
            TyreState {
                animation_tyre_right_down: None,
                animation_tyre_left_down: Some(now),
                progress_right_down: Progress::one_spec(),
                ..self
            }
        } else {
            TyreState {
                progress_right_down: s.progress,
                progress_left_up: Progress::one_spec(),
                progress_right_up: Progress::one_spec(),
                progress_left_down: Progress::zero_spec(),
                ..self
            }
        }
    }

    /// The state after LeftDown is sampled at `now`: on completion it stops at
    /// one and starts nothing; while it runs, the earlier slots read one.
    pub open spec fn left_down_advanced(self, now: u64, duration: u32) -> TyreState {
        let s = timer_sample(self.animation_tyre_left_down, now, duration);
        if self.animation_tyre_left_down.is_none() {
            self
        } else if s.just_completed {
            TyreState {
                animation_tyre_left_down: None,
                progress_left_down: Progress::one_spec(),
                ..self
            }
        } else {
            TyreState {
                progress_left_down: s.progress,
                progress_left_up: Progress::one_spec(),
                progress_right_up: Progress::one_spec(),
                progress_right_down: Progress::one_spec(),
                ..self
            }
        }
    }

    /// The state after the timer of `slot` is sampled at `now`.
    pub open spec fn slot_advanced(self, slot: Slot, now: u64, duration: u32) -> TyreState {
        match slot {
            Slot::LeftUp => self.left_up_advanced(now, duration),
            Slot::RightUp => self.right_up_advanced(now, duration),
            Slot::RightDown => self.right_down_advanced(now, duration),
            Slot::LeftDown => self.left_down_advanced(now, duration),
        }
    }

    /// The state after one tick at `now`: the timers are sampled in the order
    /// LeftUp, RightUp, LeftDown, RightDown.
    pub open spec fn relay_advanced(self, now: u64, duration: u32) -> TyreState {
        self.left_up_advanced(now, duration).right_up_advanced(now, duration).left_down_advanced(
            now,
            duration,
        ).right_down_advanced(now, duration)
    }

    /// Opening the panel: it becomes active, LeftUp starts at `start` and the
    /// other three timers are cleared.
    pub open spec fn opened(self, start: u64) -> TyreState {
        TyreState {
            is_tyre: true,
            animation_tyre_left_up: Some(start),
            animation_tyre_right_up: None,
            animation_tyre_right_down: None,
            animation_tyre_left_down: None,
            ..self
        }
    }

    /// Closing the panel: it becomes inactive and only LeftUp restarts.
    pub open spec fn closed(self, now: u64) -> TyreState {
        TyreState { is_tyre: false, animation_tyre_left_up: Some(now), ..self }
    }

    /// What `slot` shows. A running slot shows its box scaled by its progress,
    /// or, on a closing panel, by the complement unless that progress is one.
    /// A stopped slot shows the bare outline while an earlier slot of a
    /// closing panel still runs, and its readings on an open panel once every
    /// earlier slot has stopped.
    pub open spec fn view_spec(self, slot: Slot) -> SlotView {
        let p = self.progress_of(slot);
        if self.timer_of(slot).is_some() {
            if !self.is_tyre && !p.is_one() {
                SlotView::Scaled(p.rest())
            } else {
                SlotView::Scaled(p)
            }
        } else if self.earlier_running(slot) {
            if self.is_tyre {
                SlotView::Hidden
            } else {
                SlotView::Outline
            }
        } else if self.is_tyre {
            SlotView::Detailed
        } else {
            SlotView::Hidden
        }
    }

    /// Inactive, with no timer running.
    pub fn new() -> (r: TyreState)
        ensures
            r == TyreState::initial(),
            r.wf(),
    {
        TyreState {
            is_tyre: false,
            animation_tyre_left_up: None,
            animation_tyre_right_up: None,
            animation_tyre_left_down: None,
            animation_tyre_right_down: None,
            progress_left_up: Progress::zero(),
            progress_right_up: Progress::zero(),
            progress_left_down: Progress::zero(),
            progress_right_down: Progress::zero(),
        }
    }

    /// Samples the LeftUp timer at `now`.
    pub fn animate_tyre_left_up(&mut self, now: u64, animation_duration: u32)
        requires
            old(self).wf(),
        ensures
            *final(self) == old(self).left_up_advanced(now, animation_duration),
            final(self).wf(),
    {
        if self.animation_tyre_left_up.is_some() {
            let s = advance(self.animation_tyre_left_up, now, animation_duration);
            if s.just_completed {
                self.animation_tyre_left_up = None;
                self.animation_tyre_right_up = Some(now);
                self.progress_left_up = Progress::one();
            } else {
                self.progress_left_up = s.progress;
                self.progress_right_up = Progress::zero();
                self.progress_left_down = Progress::zero();
                self.progress_right_down = Progress::zero();
            }
        }
    }

    /// Samples the RightUp timer at `now`.
    pub fn animate_tyre_right_up(&mut self, now: u64, animation_duration: u32)
        requires
            old(self).wf(),
        ensures
            *final(self) == old(self).right_up_advanced(now, animation_duration),
            final(self).wf(),
    {
        if self.animation_tyre_right_up.is_some() {
            let s = advance(self.animation_tyre_right_up, now, animation_duration);
            if s.just_completed {
                self.animation_tyre_right_up = None;
                self.animation_tyre_right_down = Some(now);
                self.progress_right_up = Progress::one();
            } else {
                self.progress_right_up = s.progress;
                self.progress_left_up = Progress::one();
                self.progress_left_down = Progress::zero();
                self.progress_right_down = Progress::zero();
            }
        }
    }

    /// Samples the RightDown timer at `now`.
    pub fn animate_tyre_right_down(&mut self, now: u64, animation_duration: u32)
        requires
            old(self).wf(),
        ensures
            *final(self) == old(self).right_down_advanced(now, animation_duration),
            final(self).wf(),
    {
        if self.animation_tyre_right_down.is_some() {
            let s = advance(self.animation_tyre_right_down, now, animation_duration);
            if s.just_completed {
                self.animation_tyre_right_down = None;
                self.animation_tyre_left_down = Some(now);
                self.progress_right_down = Progress::one();
            } else {
                self.progress_right_down = s.progress;
                self.progress_left_up = Progress::one();
                self.progress_right_up = Progress::one();
                self.progress_left_down = Progress::zero();
            }
        }
    }

    /// Samples the LeftDown timer at `now`; its completion starts nothing.
    pub fn animate_tyre_left_down(&mut self, now: u64, animation_duration: u32)
        requires
            old(self).wf(),
        ensures
            *final(self) == old(self).left_down_advanced(now, animation_duration),
            final(self).wf(),
            final(self).animation_tyre_left_up == old(self).animation_tyre_left_up,
            final(self).animation_tyre_right_up == old(self).animation_tyre_right_up,
            final(self).animation_tyre_right_down == old(self).animation_tyre_right_down,
            old(self).animation_tyre_left_down.is_some() ==> final(self).animation_tyre_left_down
                == timer_sample(old(self).animation_tyre_left_down, now, animation_duration).start,
    {
        if self.animation_tyre_left_down.is_some() {
            let s = advance(self.animation_tyre_left_down, now, animation_duration);
            if s.just_completed {
                self.animation_tyre_left_down = None;
                self.progress_left_down = Progress::one();
            } else {
                self.progress_left_down = s.progress;
                self.progress_left_up = Progress::one();
                self.progress_right_up = Progress::one();
                self.progress_right_down = Progress::one();
            }
        }
    }

    /// Opens the panel, starting the relay at `start`.
    pub fn open(&mut self, start: u64)
        ensures
            *final(self) == old(self).opened(start),
            old(self).wf() ==> final(self).wf(),
    {
        self.is_tyre = true;
        self.animation_tyre_left_up = Some(start);
        self.animation_tyre_right_up = None;
        self.animation_tyre_left_down = None;
        self.animation_tyre_right_down = None;
    }

    /// Closes the panel, restarting only LeftUp.
    pub fn close(&mut self, now: u64)
        ensures
            *final(self) == old(self).closed(now),
            old(self).wf() ==> final(self).wf(),
    {
        self.is_tyre = false;
        self.animation_tyre_left_up = Some(now);
    }

    /// What `slot` shows (see `view_spec`).
    pub fn slot_view(&self, slot: Slot) -> (r: SlotView)
        requires
            self.wf(),
        ensures
            r == self.view_spec(slot),
    {
        let (timer, p, earlier) = match slot {
            Slot::LeftUp => (self.animation_tyre_left_up, self.progress_left_up, false),
            Slot::RightUp => (
                self.animation_tyre_right_up,
                self.progress_right_up,
                self.animation_tyre_left_up.is_some(),
            ),
            Slot::RightDown => (
                self.animation_tyre_right_down,
                self.progress_right_down,
                self.animation_tyre_left_up.is_some() || self.animation_tyre_right_up.is_some(),
            ),
            Slot::LeftDown => (
                self.animation_tyre_left_down,
                self.progress_left_down,
                self.animation_tyre_left_up.is_some() || self.animation_tyre_right_up.is_some()
                    || self.animation_tyre_right_down.is_some(),
            ),
        };
        proof {
            if earlier {
                let k = if self.animation_tyre_left_up.is_some() {
                    Slot::LeftUp
                } else if self.animation_tyre_right_up.is_some() {
                    Slot::RightUp
                } else {
                    Slot::RightDown
                };
                assert(slot_index(k) < slot_index(slot) && self.timer_of(k).is_some());
            } else {
                assert forall|k: Slot| slot_index(k) < slot_index(slot) implies self.timer_of(
                    k,
                ).is_none() by {
                    match k {
                        Slot::LeftUp => {},
                        Slot::RightUp => {},
                        Slot::RightDown => {},
                        Slot::LeftDown => {},
                    }
                }
            }
        }
        if timer.is_some() {
            if !self.is_tyre && !p.is_full() {
                SlotView::Scaled(p.complement())
            } else {
                SlotView::Scaled(p)
            }
        } else if earlier {
            if self.is_tyre {
                SlotView::Hidden
            } else {
                SlotView::Outline
            }
        } else if self.is_tyre {
            SlotView::Detailed
        } else {
            SlotView::Hidden
        }
    }
}

/// While a slot is animating, every slot before it in the relay reads one
/// and every slot after it reads zero.
pub proof fn lemma_running_slot_orders_progress(s: TyreState, slot: Slot, now: u64, duration: u32)
    requires
        s.timer_of(slot).is_some(),
        !timer_sample(s.timer_of(slot), now, duration).just_completed,
    ensures
        forall|j: Slot|
            slot_index(j) < slot_index(slot) ==> (#[trigger] s.slot_advanced(slot, now, duration).progress_of(
                j,
            )).is_one(),
        forall|j: Slot|
            slot_index(j) > slot_index(slot) ==> (#[trigger] s.slot_advanced(slot, now, duration).progress_of(
                j,
            )).is_zero(),
        s.slot_advanced(slot, now, duration).progress_of(slot) == timer_sample(
            s.timer_of(slot),
            now,
            duration,
        ).progress,
{
    assert forall|j: Slot| slot_index(j) < slot_index(slot) implies (#[trigger] s.slot_advanced(
        slot,
        now,
        duration,
    ).progress_of(j)).is_one() by {
        match j {
            Slot::LeftUp => {},
            Slot::RightUp => {},
            Slot::RightDown => {},
            Slot::LeftDown => {},
        }
    }
    assert forall|j: Slot| slot_index(j) > slot_index(slot) implies (#[trigger] s.slot_advanced(
        slot,
        now,
        duration,
    ).progress_of(j)).is_zero() by {
        match j {
            Slot::LeftUp => {},
            Slot::RightUp => {},
            Slot::RightDown => {},
            Slot::LeftDown => {},
        }
    }
}

/// Opening the panel at `t0` and ticking once per slot duration: after one
/// duration LeftUp has finished at one and RightUp runs; after two, RightUp
/// has finished at one and RightDown runs, while LeftDown has not started.
pub proof fn lemma_open_relay(s: TyreState, t0: u64, duration: u32)
    requires
        0 < duration,
        t0 + 2 * duration <= u64::MAX,
    ensures
        ({
            let first = s.opened(t0).relay_advanced((t0 + duration) as u64, duration);
            let second = first.relay_advanced((t0 + 2 * duration) as u64, duration);
            &&& first.animation_tyre_left_up.is_none()
            &&& first.progress_left_up.is_one()
            &&& first.animation_tyre_right_up == Some((t0 + duration) as u64)
            &&& first.animation_tyre_right_down.is_none()
            &&& first.animation_tyre_left_down.is_none()
            &&& second.animation_tyre_left_up.is_none()
            &&& second.animation_tyre_right_up.is_none()
            &&& second.progress_right_up.is_one()
            &&& second.animation_tyre_right_down == Some((t0 + 2 * duration) as u64)
            &&& second.animation_tyre_left_down.is_none()
        }),
{
}

} // verus!
