use vstd::prelude::*;
use crate::timer::{advance, timer_sample, Progress};

verus! {

/// The climate mode.
#[derive(Clone, Copy, Debug, PartialEq, Eq, Structural)]
pub enum TempType {
    Cool,
    Heat,
}

/// The climate panel: whether it is on screen, its mode and temperature, and
/// four timers. Main slides the panel in or out; Icon grows the selected mode
/// icon; Glow reveals the background glow; Fade fades the panel's text.
/// Main's completion starts Glow and Fade, Icon's completion starts Glow.
#[derive(Clone, Copy, Debug, PartialEq, Eq, Structural)]
pub struct TempState {
    pub animation_temp: Option<u64>,
    pub animation_temp_icon: Option<u64>,
    pub animation_temp_glow: Option<u64>,
    pub animation_temp_fade: Option<u64>,
    pub progress_temp: Progress,
    pub progress_temp_icon: Progress,
    pub progress_temp_glow: Progress,
    pub progress_temp_fade: Progress,
    pub is_temp: bool,
    pub temp_type: TempType,
    pub temp: i32,
}

impl TempState {
    pub open spec fn wf(self) -> bool {
        &&& self.progress_temp.wf()
        &&& self.progress_temp_icon.wf()
        &&& self.progress_temp_glow.wf()
        &&& self.progress_temp_fade.wf()
    }

    pub open spec fn initial() -> TempState {
        TempState {
            animation_temp: None,
            animation_temp_icon: None,
            animation_temp_glow: None,
            animation_temp_fade: None,
            progress_temp: Progress::zero_spec(),
            progress_temp_icon: Progress::zero_spec(),
            progress_temp_glow: Progress::zero_spec(),
            progress_temp_fade: Progress::zero_spec(),
            is_temp: false,
            temp_type: TempType::Cool,
            temp: 29,
        }
    }

    /// The state after the Main timer is sampled at `now`: on completion it
    /// stops at one and starts both Glow and Fade at `now`; while it runs the glow
    /// is held back at zero.
    pub open spec fn main_advanced(self, now: u64, duration: u32) -> TempState {
        let s = timer_sample(self.animation_temp, now, duration);
        if self.animation_temp.is_none() {
            self
        } else if s.just_completed {
            TempState {
                animation_temp: None,
                progress_temp: Progress::one_spec(),
                animation_temp_glow: Some(now),
                animation_temp_fade: Some(now),
                ..self
            }
        } else {
            TempState { progress_temp: s.progress, progress_temp_glow: Progress::zero_spec(), ..self }
        }
    }

    /// The state after the Icon timer is sampled at `now`: on completion it
    /// stops at one and (re)starts Glow at `now`; while it runs the glow is held back
    /// at zero.
    pub open spec fn icon_advanced(self, now: u64, duration: u32) -> TempState {
        let s = timer_sample(self.animation_temp_icon, now, duration);
        if self.animation_temp_icon.is_none() {
            self
        } else if s.just_completed {
            TempState {
                animation_temp_icon: None,
                progress_temp_icon: Progress::one_spec(),
                animation_temp_glow: Some(now),
                ..self
            }
        } else {
            TempState {
                progress_temp_icon: s.progress,
                progress_temp_glow: Progress::zero_spec(),
                ..self
            }
        }
    }

    /// The state after the Glow timer is sampled at `now`; it stops at one.
    pub open spec fn glow_advanced(self, now: u64, duration: u32) -> TempState {
        let s = timer_sample(self.animation_temp_glow, now, duration);
        if self.animation_temp_glow.is_none() {
            self
        } else if s.just_completed {
            TempState {
                animation_temp_glow: None,
                progress_temp_glow: Progress::one_spec(),
                ..self
            }
        } else {
            TempState { progress_temp_glow: s.progress, ..self }
        }
    }

    /// The state after the Fade timer is sampled at `now`; it stops at one.
    pub open spec fn fade_advanced(self, now: u64, duration: u32) -> TempState {
        let s = timer_sample(self.animation_temp_fade, now, duration);
        if self.animation_temp_fade.is_none() {
            self
        } else if s.just_completed {
            TempState {
                animation_temp_fade: None,
                progress_temp_fade: Progress::one_spec(),
                ..self
            }
        } else {
            TempState { progress_temp_fade: s.progress, ..self }
        }
    }

    /// Entering the panel: it becomes active, Main and Icon start at `now`.
    pub open spec fn entered(self, now: u64) -> TempState {
        TempState {
            is_temp: true,
            animation_temp: Some(now),
            animation_temp_icon: Some(now),
            ..self
        }
    }

    /// Leaving the panel: it becomes inactive and Main starts at `now`.
    pub open spec fn left(self, now: u64) -> TempState {
        TempState { is_temp: false, animation_temp: Some(now), ..self }
    }

    /// A click on either mode icon: the mode flips and Icon restarts.
    pub open spec fn mode_toggled(self, now: u64) -> TempState {
        TempState {
            temp_type: if self.temp_type == TempType::Cool {
                TempType::Heat
            } else {
                TempType::Cool
            },
            animation_temp_icon: Some(now),
            ..self
        }
    }

    /// Progress of the mode icon's growth: one while Icon is stopped and the
    /// panel is active, else the stored progress.
    pub open spec fn icon_progress_spec(self) -> Progress {
        if self.animation_temp_icon.is_none() && self.is_temp {
            Progress::one_spec()
        } else {
            self.progress_temp_icon
        }
    }

    /// Inactive, in cooling mode at 29 degrees, with no timer running.
    pub fn new() -> (r: TempState)
        ensures
            r == TempState::initial(),
            r.wf(),
    {
        TempState {
            animation_temp: None,
            animation_temp_icon: None,
            animation_temp_glow: None,
            animation_temp_fade: None,
            progress_temp: Progress::zero(),
            progress_temp_icon: Progress::zero(),
            progress_temp_glow: Progress::zero(),
            progress_temp_fade: Progress::zero(),
            is_temp: false,
            temp_type: TempType::Cool,
            temp: 29,
        }
    }

    /// Samples the Main timer at `now`.
    pub fn animate_temp(&mut self, now: u64, animation_duration: u32)
        requires
            old(self).wf(),
        ensures
            *final(self) == old(self).main_advanced(now, animation_duration),
            final(self).wf(),
    {
        if self.animation_temp.is_some() {
            let s = advance(self.animation_temp, now, animation_duration);
            if s.just_completed {
                self.animation_temp = None;
                self.progress_temp = Progress::one();
                self.animation_temp_glow = Some(now);
                self.animation_temp_fade = Some(now);
            } else {
                self.progress_temp = s.progress;
                self.progress_temp_glow = Progress::zero();
            }
        }
    }

    /// Samples the Icon timer at `now`.
    pub fn animate_temp_icon(&mut self, now: u64, animation_duration: u32)
        requires
            old(self).wf(),
        ensures
            *final(self) == old(self).icon_advanced(now, animation_duration),
            final(self).wf(),
    {
        if self.animation_temp_icon.is_some() {
            let s = advance(self.animation_temp_icon, now, animation_duration);
            if s.just_completed {
                self.animation_temp_icon = None;
                self.progress_temp_icon = Progress::one();
                self.animation_temp_glow = Some(now);
            } else {
                self.progress_temp_icon = s.progress;
                self.progress_temp_glow = Progress::zero();
            }
        }
    }

    /// Samples the Glow timer at `now`.
    pub fn animate_temp_glow(&mut self, now: u64, animation_duration: u32)
        requires
            old(self).wf(),
        ensures
            *final(self) == old(self).glow_advanced(now, animation_duration),
            final(self).wf(),
    {
        if self.animation_temp_glow.is_some() {
            let s = advance(self.animation_temp_glow, now, animation_duration);
            if s.just_completed {
                self.animation_temp_glow = None;
                self.progress_temp_glow = Progress::one();
            } else {
                self.progress_temp_glow = s.progress;
            }
        }
    }

    /// Samples the Fade timer at `now`.
    pub fn animate_temp_fade(&mut self, now: u64, animation_duration: u32)
        requires
            old(self).wf(),
        ensures
            *final(self) == old(self).fade_advanced(now, animation_duration),
            final(self).wf(),
    {
        if self.animation_temp_fade.is_some() {
            let s = advance(self.animation_temp_fade, now, animation_duration);
            if s.just_completed {
                self.animation_temp_fade = None;
                self.progress_temp_fade = Progress::one();
            } else {
                self.progress_temp_fade = s.progress;
            }
        }
    }

    /// Brings the panel in.
    pub fn enter(&mut self, now: u64)
        ensures
            *final(self) == old(self).entered(now),
            old(self).wf() ==> final(self).wf(),
    {
        self.is_temp = true;
        self.animation_temp = Some(now);
        self.animation_temp_icon = Some(now);
    }

    /// Sends the panel out.
    pub fn leave(&mut self, now: u64)
        ensures
            *final(self) == old(self).left(now),
            old(self).wf() ==> final(self).wf(),
    {
        self.is_temp = false;
        self.animation_temp = Some(now);
    }

    /// Switches between cooling and heating and restarts the icon growth.
    pub fn toggle_mode(&mut self, now: u64)
        ensures
            *final(self) == old(self).mode_toggled(now),
            final(self).temp_type != old(self).temp_type,
            old(self).wf() ==> final(self).wf(),
    {
        self.temp_type = if self.temp_type == TempType::Cool {
            TempType::Heat
        } else {
            TempType::Cool
        };
        self.animation_temp_icon = Some(now);
    }

    /// Raises the set temperature by one degree.
    pub fn increase_temp(&mut self)
        requires
            old(self).temp < i32::MAX,
        ensures
            *final(self) == (TempState { temp: (old(self).temp + 1) as i32, ..*old(self) }),
    {
        self.temp = self.temp + 1;
    }

    /// Lowers the set temperature by one degree.
    pub fn decrease_temp(&mut self)
        requires
            old(self).temp > i32::MIN,
        ensures
            *final(self) == (TempState { temp: (old(self).temp - 1) as i32, ..*old(self) }),
    {
        self.temp = self.temp - 1;
    }

    /// Whether the panel's content (temperature, arrows, mode icons, labels)
    /// is drawn: once the panel is active and has finished sliding in.
    pub fn content_shown(&self) -> (r: bool)
        ensures
            r == (self.is_temp && self.animation_temp.is_none()),
    {
        self.is_temp && self.animation_temp.is_none()
    }

    /// Raw Fade progress, which places the text lines; one while Fade is
    /// stopped.
    pub fn fade_progress(&self) -> (r: Progress)
        ensures
            r == (if self.animation_temp_fade.is_none() {
                Progress::one_spec()
            } else {
                self.progress_temp_fade
            }),
    {
        if self.animation_temp_fade.is_none() {
            Progress::one()
        } else {
            self.progress_temp_fade
        }
    }

    /// Opacity of the content: Fade's progress when the panel is active, its
    /// complement when it is not, and one while Fade is stopped.
    pub fn content_opacity(&self) -> (r: Progress)
        requires
            self.wf(),
        ensures
            r == (if self.animation_temp_fade.is_none() {
                Progress::one_spec()
            } else if self.is_temp {
                self.progress_temp_fade
            } else {
                self.progress_temp_fade.rest()
            }),
            r.wf(),
    {
        if self.animation_temp_fade.is_none() {
            Progress::one()
        } else if self.is_temp {
            self.progress_temp_fade
        } else {
            self.progress_temp_fade.complement()
        }
    }

    /// Whether the text lines travel their path backwards: while Fade runs on
    /// an inactive panel.
    pub fn content_reversed(&self) -> (r: bool)
        ensures
            r == (self.animation_temp_fade.is_some() && !self.is_temp),
    {
        self.animation_temp_fade.is_some() && !self.is_temp
    }

    /// How far the icon of `mode` has grown from its small to its enlarged
    /// size: the Icon progress for the selected mode, its complement for the
    /// other one.
    pub fn icon_growth(&self, mode: TempType) -> (r: Progress)
        requires
            self.wf(),
        ensures
            r == (if mode == self.temp_type {
                self.icon_progress_spec()
            } else {
                self.icon_progress_spec().rest()
            }),
            r.wf(),
    {
        let p = if self.animation_temp_icon.is_none() && self.is_temp {
            Progress::one()
        } else {
            self.progress_temp_icon
        };
        if mode == self.temp_type {
            p
        } else {
            p.complement()
        }
    }

    /// Whether the icon of `mode` is tinted translucent white instead of its
    /// own colour: it is the unselected one and Icon is running.
    pub fn icon_dimmed(&self, mode: TempType) -> (r: bool)
        ensures
            r == (mode != self.temp_type && self.animation_temp_icon.is_some()),
    {
        mode != self.temp_type && self.animation_temp_icon.is_some()
    }

    /// Whether the background glow is drawn: the panel is active and neither
    /// Main nor Icon is running.
    pub fn glow_shown(&self) -> (r: bool)
        ensures
            r == (self.is_temp && self.animation_temp_icon.is_none()
                && self.animation_temp.is_none()),
    {
        self.is_temp && self.animation_temp_icon.is_none() && self.animation_temp.is_none()
    }

    /// Revealed width of the glow: one while Glow is stopped on an active
    /// panel, else the stored progress.
    pub fn glow_progress(&self) -> (r: Progress)
        ensures
            r == (if self.animation_temp_glow.is_none() && self.is_temp {
                Progress::one_spec()
            } else {
                self.progress_temp_glow
            }),
    {
        if self.animation_temp_glow.is_none() && self.is_temp {
            Progress::one()
        } else {
            self.progress_temp_glow
        }
    }

    /// How far the vehicle image has slid aside to make room for the panel:
    /// Main's progress while sliding in, its complement while sliding out,
    /// one when the panel is settled on screen and zero when it is away.
    pub fn slide(&self) -> (r: Progress)
        requires
            self.wf(),
        ensures
            r == (if self.is_temp {
                if self.animation_temp.is_none() {
                    Progress::one_spec()
                } else {
                    self.progress_temp
                }
            } else if self.animation_temp.is_some() {
                self.progress_temp.rest()
            } else {
                Progress::zero_spec()
            }),
            r.wf(),
    {
        if self.is_temp {
            if self.animation_temp.is_none() {
                Progress::one()
            } else {
                self.progress_temp
            }
        } else if self.animation_temp.is_some() {
            self.progress_temp.complement()
        } else {
            Progress::zero()
        }
    }
}

} // verus!
