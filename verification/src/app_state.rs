//! The three screens of the appliance and what the joystick does on each.
//! A screen decides; what it decides on is carried out by whoever owns the
//! devices.

use vstd::prelude::*;

use self::clock::{ClockState, ClockView};
use self::stopwatch::StopwatchState;
use self::timer::{TimerState, TimerView};
use crate::displayinfo::TimeOfDay;
use crate::joystick::{Joystick, JoystickView};

pub mod clock;
pub mod stopwatch;
pub mod switch;
pub mod timer;

verus! {

/// What a screen asks of the rest of the appliance.
#[derive(Debug, Clone, Copy, PartialEq, Eq, Structural)]
pub enum Effect {
    /// Go to the next screen, or to the previous one for `false`.
    ChangeState(bool),
    /// Set the clock chip to this time.
    SetTime(TimeOfDay),
    /// Start a countdown of so many seconds.
    StartCountdown(u32),
    StopCountdown,
    StartStopwatch,
    PauseStopwatch,
    /// Stop the stopwatch and set it back to zero.
    StopStopwatch,
}

/// A time in seconds as hours, minutes and seconds.
pub fn split_seconds(total: u32) -> (parts: (u32, u32, u32))
    ensures
        parts.0 == total / 3600,
        parts.1 == (total / 60) % 60,
        parts.2 == total % 60,
        parts.0 * 3600 + parts.1 * 60 + parts.2 == total,
{
    let hours = total / 3600;
    let minutes = total / 60 - 60 * hours;
    let seconds = total - 60 * minutes - 3600 * hours;
    (hours, minutes, seconds)
}

/// A time in milliseconds as hours, minutes, seconds and tenths of a second.
pub fn split_milliseconds(total: u32) -> (parts: (u32, u32, u32, u32))
    ensures
        parts.0 == total / 3600000,
        parts.1 == (total / 60000) % 60,
        parts.2 == (total / 1000) % 60,
        parts.3 == (total % 1000) / 100,
{
    let (hours, minutes, seconds) = split_seconds(total / 1000);
    let tenths = (total - 1000 * seconds - 60000 * minutes - 3600000 * hours) / 100;
    (hours, minutes, seconds, tenths)
}

/// Current app states
#[derive(Debug, Clone, Copy, PartialEq, Eq, Structural)]
pub enum AppState {
    Clock,
    Timer,
    Stopwatch,
}

impl AppState {
    /// The screen to the right: clock, stopwatch, timer, and round again.
    pub open spec fn following(self) -> AppState {
        match self {
            AppState::Clock => AppState::Stopwatch,
            AppState::Stopwatch => AppState::Timer,
            AppState::Timer => AppState::Clock,
        }
    }

    /// The screen to the left.
    pub open spec fn preceding(self) -> AppState {
        match self {
            AppState::Clock => AppState::Timer,
            AppState::Stopwatch => AppState::Clock,
            AppState::Timer => AppState::Stopwatch,
        }
    }
}

/// What the three screens hold, and which one is on show.
pub ghost struct HolderView {
    pub state: AppState,
    pub clock: ClockView,
    pub timer: TimerView,
}

impl HolderView {
    pub open spec fn wf(self) -> bool {
        self.clock.wf() && self.timer.wf()
    }

    /// The input goes to the screen on show, and the other screens stay as
    /// they are.
    pub open spec fn on_input(self, joystick: JoystickView, stopwatch_started: bool) -> (
        HolderView,
        Option<Effect>,
    ) {
        match self.state {
            AppState::Clock => (
                HolderView { clock: self.clock.on_input(joystick).0, ..self },
                self.clock.on_input(joystick).1,
            ),
            AppState::Timer => (
                HolderView { timer: self.timer.on_input(joystick).0, ..self },
                self.timer.on_input(joystick).1,
            ),
            AppState::Stopwatch => (self, stopwatch::on_input(joystick, stopwatch_started)),
        }
    }

    /// A second has passed: only a clock on show counts it.
    pub open spec fn ticked(self) -> HolderView {
        match self.state {
            AppState::Clock => HolderView { clock: self.clock.ticked(), ..self },
            _ => self,
        }
    }
}

pub struct AppStateHolder {
    state: AppState,
    clock_state: ClockState,
    timer_state: TimerState,
    stopwatch_state: StopwatchState,
}

impl View for AppStateHolder {
    type V = HolderView;

    closed spec fn view(&self) -> HolderView {
        HolderView { state: self.state, clock: self.clock_state@, timer: self.timer_state@ }
    }
}

impl AppStateHolder {
    /// The appliance comes up on the clock, with the time of the clock chip.
    pub fn new(
        clock: ClockState,
        timer: TimerState,
        stopwatch: StopwatchState,
        time: TimeOfDay,
    ) -> (holder: AppStateHolder)
        requires
            time.is_valid(),
            timer@.wf(),
        ensures
            holder@ == (HolderView {
                state: AppState::Clock,
                clock: ClockView { display_time: time, ..clock@ },
                timer: timer@,
            }),
            holder@.wf(),
    {
        let mut clock = clock;
        clock.enter(time);
        Self {
            state: AppState::Clock,
            clock_state: clock,
            timer_state: timer,
            stopwatch_state: stopwatch,
        }
    }

    /// The screen on show.
    pub fn state(&self) -> (state: AppState)
        ensures
            state == self@.state,
    {
        self.state
    }

    pub fn clock(&self) -> (clock: &ClockState)
        ensures
            clock@ == self@.clock,
    {
        &self.clock_state
    }

    pub fn timer(&self) -> (timer: &TimerState)
        ensures
            timer@ == self@.timer,
    {
        &self.timer_state
    }

    /// Switch to next state. The result says whether that is the clock, which
    /// then wants the time of the clock chip.
    pub fn next(&mut self) -> (wants_time: bool)
        ensures
            final(self)@ == (HolderView { state: old(self)@.state.following(), ..old(self)@ }),
            wants_time == (final(self)@.state == AppState::Clock),
    {
        self.state = match self.state {
            AppState::Clock => AppState::Stopwatch,
            AppState::Stopwatch => AppState::Timer,
            AppState::Timer => AppState::Clock,
        };
        matches!(self.state, AppState::Clock)
    }

    /// Switch to previous state. The result says whether that is the clock,
    /// which then wants the time of the clock chip.
    pub fn prev(&mut self) -> (wants_time: bool)
        ensures
            final(self)@ == (HolderView { state: old(self)@.state.preceding(), ..old(self)@ }),
            wants_time == (final(self)@.state == AppState::Clock),
    {
        self.state = match self.state {
            AppState::Clock => AppState::Timer,
            AppState::Stopwatch => AppState::Clock,
            AppState::Timer => AppState::Stopwatch,
        };
        matches!(self.state, AppState::Clock)
    }

    /// The clock screen takes over the time of the clock chip.
    pub fn enter(&mut self, time: TimeOfDay)
        requires
            time.is_valid(),
            old(self)@.wf(),
        ensures
            final(self)@ == (HolderView {
                clock: ClockView { display_time: time, ..old(self)@.clock },
                ..old(self)@
            }),
            final(self)@.wf(),
    {
        self.clock_state.enter(time);
    }

    pub fn tick(&mut self)
        requires
            old(self)@.wf(),
        ensures
            final(self)@ == old(self)@.ticked(),
            final(self)@.wf(),
    {
        match self.state {
            AppState::Clock => self.clock_state.tick(),
            _ => {},
        }
    }

    pub fn handle_input<J: Joystick>(&mut self, joystick: &J, stopwatch_started: bool) -> (effect:
        Option<Effect>)
        requires
            old(self)@.wf(),
        ensures
            (final(self)@, effect) == old(self)@.on_input(joystick.memory(), stopwatch_started),
            final(self)@.wf(),
    {
        match self.state {
            AppState::Clock => self.clock_state.handle_input(joystick),
            AppState::Stopwatch => self.stopwatch_state.handle_input(joystick, stopwatch_started),
            AppState::Timer => self.timer_state.handle_input(joystick),
        }
    }
}

} // verus!
