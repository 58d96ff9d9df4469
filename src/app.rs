use vstd::prelude::*;
use crate::charge::ChargeState;
use crate::lock::LockState;
use crate::temp::TempState;
use crate::tyre::TyreState;

verus! {

/// Duration of the lock/unlock icon morph, in milliseconds.
pub const ANIMATION_SWITCH_DURATION: u32 = 300;

/// Duration of the lock icons' show/hide slide.
pub const ANIMATION_BOUNCE_DURATION: u32 = 500;

/// Duration of the charging panel's reveal or hide.
pub const ANIMATION_CHARGE_DURATION: u32 = 700;

/// Duration of the climate panel's slide; the tyre relay waits this long
/// after its panel is selected, until the slide is over.
pub const ANIMATION_TEMP_DURATION: u32 = 300;

/// Duration of the climate mode icon's growth.
pub const ANIMATION_TEMP_ICON_DURATION: u32 = 200;

/// Duration of the climate glow's reveal.
pub const ANIMATION_TEMP_GLOW_DURATION: u32 = 300;

/// Duration of the climate text's fade.
pub const ANIMATION_TEMP_FADE_DURATION: u32 = 300;

/// Duration of each tyre box's reveal.
pub const ANIMATION_TYRE_DURATION: u32 = 300;

/// The panel on screen.
#[derive(Clone, Copy, Debug, PartialEq, Eq, Structural)]
pub enum Nav {
    Lock,
    Charge,
    Temp,
    Tyre,
}

/// One of the four door locks.
#[derive(Clone, Copy, Debug, PartialEq, Eq, Structural)]
pub enum Door {
    Left,
    Right,
    Top,
    Bottom,
}

/// The whole dashboard: the panel on screen and every widget's state.
#[derive(Clone, Copy, Debug, PartialEq, Eq, Structural)]
pub struct MyApp {
    pub nav: Nav,
    pub left_lock: LockState,
    pub right_lock: LockState,
    pub top_lock: LockState,
    pub bottom_lock: LockState,
    pub charge: ChargeState,
    pub temp: TempState,
    pub tyre: TyreState,
}

impl MyApp {
    /// Every widget is well formed, and each panel's widget is active exactly
    /// when that panel is on screen.
    pub open spec fn wf(self) -> bool {
        &&& self.left_lock.wf()
        &&& self.right_lock.wf()
        &&& self.top_lock.wf()
        &&& self.bottom_lock.wf()
        &&& self.charge.wf()
        &&& self.temp.wf()
        &&& self.tyre.wf()
        &&& self.left_lock.is_show == (self.nav == Nav::Lock)
        &&& self.right_lock.is_show == (self.nav == Nav::Lock)
        &&& self.top_lock.is_show == (self.nav == Nav::Lock)
        &&& self.bottom_lock.is_show == (self.nav == Nav::Lock)
        &&& self.charge.is_charged == (self.nav == Nav::Charge)
        &&& self.temp.is_temp == (self.nav == Nav::Temp)
        &&& self.tyre.is_tyre == (self.nav == Nav::Tyre)
    }

    pub open spec fn initial() -> MyApp {
        MyApp {
            nav: Nav::Lock,
            left_lock: LockState::initial(),
            right_lock: LockState::initial(),
            top_lock: LockState::initial(),
            bottom_lock: LockState::initial(),
            charge: ChargeState::initial(),
            temp: TempState::initial(),
            tyre: TyreState::initial(),
        }
    }

    /// The lock of `door`.
    pub open spec fn lock_of(self, door: Door) -> LockState {
        match door {
            Door::Left => self.left_lock,
            Door::Right => self.right_lock,
            Door::Top => self.top_lock,
            Door::Bottom => self.bottom_lock,
        }
    }

    /// Whether any timer of any widget runs.
    pub open spec fn any_running(self) -> bool {
        ||| self.left_lock.animation_switch.is_some()
        ||| self.right_lock.animation_switch.is_some()
        ||| self.top_lock.animation_switch.is_some()
        ||| self.bottom_lock.animation_switch.is_some()
        ||| self.left_lock.animation_bounce.is_some()
        ||| self.right_lock.animation_bounce.is_some()
        ||| self.top_lock.animation_bounce.is_some()
        ||| self.bottom_lock.animation_bounce.is_some()
        ||| self.charge.animation_charge.is_some()
        ||| self.temp.animation_temp.is_some()
        ||| self.temp.animation_temp_icon.is_some()
        ||| self.temp.animation_temp_glow.is_some()
        ||| self.temp.animation_temp_fade.is_some()
        ||| self.tyre.running()
    }

    /// One lock after a tick at `now`.
    pub open spec fn lock_advanced(lock: LockState, now: u64) -> LockState {
        lock.switch_advanced(now, ANIMATION_SWITCH_DURATION).bounce_advanced(
            now,
            ANIMATION_BOUNCE_DURATION,
        )
    }

    /// The dashboard after a tick at `now`: every timer of every widget is
    /// sampled, the climate timers in the order Main, Icon, Glow, Fade, so that
    /// a timer started by another's completion is sampled in the same tick.
    pub open spec fn advanced(self, now: u64) -> MyApp {
        MyApp {
            left_lock: MyApp::lock_advanced(self.left_lock, now),
            right_lock: MyApp::lock_advanced(self.right_lock, now),
            top_lock: MyApp::lock_advanced(self.top_lock, now),
            bottom_lock: MyApp::lock_advanced(self.bottom_lock, now),
            charge: self.charge.charge_advanced(now, ANIMATION_CHARGE_DURATION),
            temp: self.temp.main_advanced(now, ANIMATION_TEMP_DURATION).icon_advanced(
                now,
                ANIMATION_TEMP_ICON_DURATION,
            ).glow_advanced(now, ANIMATION_TEMP_GLOW_DURATION).fade_advanced(
                now,
                ANIMATION_TEMP_FADE_DURATION,
            ),
            tyre: self.tyre.relay_advanced(now, ANIMATION_TYRE_DURATION),
            ..self
        }
    }

    /// All four locks shown (`show`) or hidden, sliding from `now`.
    pub open spec fn locks_shown(self, show: bool, now: u64) -> MyApp {
        MyApp {
            left_lock: self.left_lock.shown(show, now),
            right_lock: self.right_lock.shown(show, now),
            top_lock: self.top_lock.shown(show, now),
            bottom_lock: self.bottom_lock.shown(show, now),
            ..self
        }
    }

    /// The effect of leaving the panel on screen.
    pub open spec fn exited(self, now: u64) -> MyApp {
        match self.nav {
            Nav::Lock => self.locks_shown(false, now),
            Nav::Charge => MyApp { charge: self.charge.charged(false, now), ..self },
            Nav::Temp => MyApp { temp: self.temp.left(now), ..self },
            Nav::Tyre => MyApp { tyre: self.tyre.closed(now), ..self },
        }
    }

    /// The effect of entering `target`. The tyre relay starts once the
    /// panel slide is over.
    pub open spec fn entered(self, target: Nav, now: u64) -> MyApp {
        match target {
            Nav::Lock => self.locks_shown(true, now),
            Nav::Charge => MyApp { charge: self.charge.charged(true, now), ..self },
            Nav::Temp => MyApp { temp: self.temp.entered(now), ..self },
            Nav::Tyre => MyApp {
                tyre: self.tyre.opened((now + ANIMATION_TEMP_DURATION) as u64),
                ..self
            },
        }
    }

    /// Selecting `target` at `now`: nothing when it is already on screen;
    /// otherwise the panel on screen is left, `target` is entered, and
    /// `target` is on screen.
    pub open spec fn selected(self, target: Nav, now: u64) -> MyApp {
        if target == self.nav {
            self
        } else {
            MyApp { nav: target, ..self.exited(now).entered(target, now) }
        }
    }

    /// A click on the lock of `door` at `now`.
    pub open spec fn lock_toggled(self, door: Door, now: u64) -> MyApp {
        match door {
            Door::Left => MyApp { left_lock: self.left_lock.toggled(now), ..self },
            Door::Right => MyApp { right_lock: self.right_lock.toggled(now), ..self },
            Door::Top => MyApp { top_lock: self.top_lock.toggled(now), ..self },
            Door::Bottom => MyApp { bottom_lock: self.bottom_lock.toggled(now), ..self },
        }
    }

    /// The lock panel on screen, every widget at rest.
    pub fn new() -> (r: MyApp)
        ensures
            r == MyApp::initial(),
            r.wf(),
    {
        MyApp {
            nav: Nav::Lock,
            left_lock: LockState::new(),
            right_lock: LockState::new(),
            top_lock: LockState::new(),
            bottom_lock: LockState::new(),
            charge: ChargeState::new(),
            temp: TempState::new(),
            tyre: TyreState::new(),
        }
    }

    /// Samples every timer of every widget at `now`.
    pub fn advance(&mut self, now: u64)
        requires
            old(self).wf(),
        ensures
            *final(self) == old(self).advanced(now),
            final(self).wf(),
    {
        self.left_lock.animate_switch(now, ANIMATION_SWITCH_DURATION);
        self.right_lock.animate_switch(now, ANIMATION_SWITCH_DURATION);
        self.top_lock.animate_switch(now, ANIMATION_SWITCH_DURATION);
        self.bottom_lock.animate_switch(now, ANIMATION_SWITCH_DURATION);

        self.left_lock.animate_bounce(now, ANIMATION_BOUNCE_DURATION);
        self.right_lock.animate_bounce(now, ANIMATION_BOUNCE_DURATION);
        self.top_lock.animate_bounce(now, ANIMATION_BOUNCE_DURATION);
        self.bottom_lock.animate_bounce(now, ANIMATION_BOUNCE_DURATION);

        self.charge.animate_charge(now, ANIMATION_CHARGE_DURATION);

        self.temp.animate_temp(now, ANIMATION_TEMP_DURATION);
        self.temp.animate_temp_icon(now, ANIMATION_TEMP_ICON_DURATION);
        self.temp.animate_temp_glow(now, ANIMATION_TEMP_GLOW_DURATION);
        self.temp.animate_temp_fade(now, ANIMATION_TEMP_FADE_DURATION);

        self.tyre.animate_tyre_left_up(now, ANIMATION_TYRE_DURATION);
        self.tyre.animate_tyre_right_up(now, ANIMATION_TYRE_DURATION);
        self.tyre.animate_tyre_left_down(now, ANIMATION_TYRE_DURATION);
        self.tyre.animate_tyre_right_down(now, ANIMATION_TYRE_DURATION);
    }

    fn set_locks_shown(&mut self, show: bool, now: u64)
        ensures
            *final(self) == old(self).locks_shown(show, now),
    {
        self.left_lock.set_shown(show, now);
        self.right_lock.set_shown(show, now);
        self.top_lock.set_shown(show, now);
        self.bottom_lock.set_shown(show, now);
    }

    /// Puts `target` on screen at `now`, with the exit effect of the panel
    /// that was on screen and the enter effect of `target`.
    pub fn select(&mut self, target: Nav, now: u64)
        requires
            old(self).wf(),
            target != old(self).nav && target == Nav::Tyre ==> now + ANIMATION_TEMP_DURATION
                <= u64::MAX,
        ensures
            *final(self) == old(self).selected(target, now),
            final(self).wf(),
            final(self).nav == target,
    {
        if target == self.nav {
            return ;
        }
        match self.nav {
            Nav::Lock => self.set_locks_shown(false, now),
            Nav::Charge => self.charge.set_charged(false, now),
            Nav::Temp => self.temp.leave(now),
            Nav::Tyre => self.tyre.close(now),
        }
        match target {
            Nav::Lock => self.set_locks_shown(true, now),
            Nav::Charge => self.charge.set_charged(true, now),
            Nav::Temp => self.temp.enter(now),
            Nav::Tyre => self.tyre.open(now + ANIMATION_TEMP_DURATION as u64),
        }
        self.nav = target;
    }

    /// Flips the lock of `door` and restarts its morph.
    pub fn toggle_lock(&mut self, door: Door, now: u64)
        requires
            old(self).wf(),
        ensures
            *final(self) == old(self).lock_toggled(door, now),
            final(self).lock_of(door).is_locked == !old(self).lock_of(door).is_locked,
            final(self).lock_of(door).animation_switch == Some(now),
            final(self).wf(),
    {
        match door {
            Door::Left => self.left_lock.toggle(now),
            Door::Right => self.right_lock.toggle(now),
            Door::Top => self.top_lock.toggle(now),
            Door::Bottom => self.bottom_lock.toggle(now),
        }
    }

    /// Whether any timer runs, so that the host must keep ticking.
    pub fn is_animating(&self) -> (r: bool)
        ensures
            r == self.any_running(),
    {
        self.left_lock.animation_switch.is_some() || self.right_lock.animation_switch.is_some()
            || self.top_lock.animation_switch.is_some()
            || self.bottom_lock.animation_switch.is_some()
            || self.left_lock.animation_bounce.is_some()
            || self.right_lock.animation_bounce.is_some()
            || self.top_lock.animation_bounce.is_some()
            || self.bottom_lock.animation_bounce.is_some()
            || self.charge.animation_charge.is_some() || self.temp.animation_temp.is_some()
            || self.temp.animation_temp_icon.is_some() || self.temp.animation_temp_glow.is_some()
            || self.temp.animation_temp_fade.is_some()
            || self.tyre.animation_tyre_left_up.is_some()
            || self.tyre.animation_tyre_right_up.is_some()
            || self.tyre.animation_tyre_left_down.is_some()
            || self.tyre.animation_tyre_right_down.is_some()
    }
}

/// When the climate panel's Main timer, started at `t0`, is sampled one Main
/// duration later, Main has stopped and both Glow and Fade run, started in
/// that same tick.
pub proof fn lemma_main_completion_starts_glow_and_fade(app: MyApp, t0: u64)
    requires
        app.temp.animation_temp == Some(t0),
        t0 + ANIMATION_TEMP_DURATION <= u64::MAX,
    ensures
        ({
            let now = (t0 + ANIMATION_TEMP_DURATION) as u64;
            let after = app.advanced(now);
            &&& after.temp.animation_temp.is_none()
            &&& after.temp.animation_temp_glow == Some(now)
            &&& after.temp.animation_temp_fade == Some(now)
        }),
{
}

/// Starting on the lock panel, selecting climate and then tyre: the climate
/// panel's exit starts its Main timer at the second selection, and the tyre
/// relay starts one climate slide after it, not at the selection itself.
pub proof fn lemma_lock_then_climate_then_tyre(app: MyApp, t1: u64, t2: u64)
    requires
        app.nav == Nav::Lock,
        t2 + ANIMATION_TEMP_DURATION <= u64::MAX,
    ensures
        ({
            let after = app.selected(Nav::Temp, t1).selected(Nav::Tyre, t2);
            &&& after.nav == Nav::Tyre
            &&& after.temp.animation_temp == Some(t2)
            &&& !after.temp.is_temp
            &&& after.tyre.is_tyre
            &&& after.tyre.animation_tyre_left_up == Some((t2 + ANIMATION_TEMP_DURATION) as u64)
            &&& after.tyre.animation_tyre_right_up.is_none()
            &&& after.tyre.animation_tyre_right_down.is_none()
            &&& after.tyre.animation_tyre_left_down.is_none()
        }),
{
}

/// A tick leaves a widget whose timers have all stopped exactly as it was, so
/// everything read from it stays the same until one of its timers starts.
pub proof fn lemma_stopped_widgets_stay_put(app: MyApp, now: u64)
    ensures
        forall|door: Door|
            (#[trigger] app.lock_of(door)).animation_switch.is_none()
                && app.lock_of(door).animation_bounce.is_none() ==> app.advanced(now).lock_of(door)
                == app.lock_of(door),
        app.charge.animation_charge.is_none() ==> app.advanced(now).charge == app.charge,
        app.temp.animation_temp.is_none() && app.temp.animation_temp_icon.is_none()
            && app.temp.animation_temp_glow.is_none() && app.temp.animation_temp_fade.is_none()
            ==> app.advanced(now).temp == app.temp,
        !app.tyre.running() ==> app.advanced(now).tyre == app.tyre,
        !app.any_running() ==> app.advanced(now) == app,
{
    assert forall|door: Door|
        (#[trigger] app.lock_of(door)).animation_switch.is_none()
            && app.lock_of(door).animation_bounce.is_none() implies app.advanced(now).lock_of(door)
        == app.lock_of(door) by {
        match door {
            Door::Left => {},
            Door::Right => {},
            Door::Top => {},
            Door::Bottom => {},
        }
    }
}

} // verus!
