//! The timer: choosing a countdown, starting it and stopping it.

use vstd::prelude::*;

use super::Effect;
use crate::joystick::{Joystick, JoystickButton, JoystickView};
use crate::speedchanger::{SpeedChanger, SpeedView};

verus! {

pub const SPEED_STEPS: u32 = 8;

pub const ACCELERAION_TICKS: u32 = 10;

/// 99 hours, 59 mins, 59 secs
pub const MAX_TIMER_COUNTDOWN: u32 = 359999;

/// A button counts as held after this many updates without change.
pub const HOLD_DURATION_TICK: u32 = 2;

#[derive(Debug, Clone, Copy, PartialEq, Eq, Structural)]
pub enum TimerInternalState {
    /// Timer not started
    TimerEnd,
    /// Edit countdown
    Edit,
    /// Timers started, display countdown
    TimerStarted,
}

#[derive(Debug, Clone, Copy, PartialEq, Eq, Structural)]
pub enum EditField {
    Hours,
    Minutes,
    Seconds,
}

impl EditField {
    pub open spec fn spec_next(self) -> EditField {
        match self {
            EditField::Hours => EditField::Minutes,
            EditField::Minutes => EditField::Seconds,
            EditField::Seconds => EditField::Hours,
        }
    }

    pub open spec fn spec_prev(self) -> EditField {
        match self {
            EditField::Hours => EditField::Seconds,
            EditField::Minutes => EditField::Hours,
            EditField::Seconds => EditField::Minutes,
        }
    }

    /// The seconds that one step of the field is worth.
    pub open spec fn spec_edit_amount(self) -> u32 {
        match self {
            EditField::Hours => 3600,
            EditField::Minutes => 60,
            EditField::Seconds => 1,
        }
    }

    /// The countdown one step up, and no further than the largest.
    pub open spec fn spec_countdown_add(self, counter: u32) -> u32 {
        if MAX_TIMER_COUNTDOWN - counter > self.spec_edit_amount() {
            (counter + self.spec_edit_amount()) as u32
        } else {
            MAX_TIMER_COUNTDOWN
        }
    }

    /// The countdown one step down, and no further than zero.
    pub open spec fn spec_countdown_sub(self, counter: u32) -> u32 {
        if counter > self.spec_edit_amount() {
            (counter - self.spec_edit_amount()) as u32
        } else {
            0
        }
    }

    #[verifier::when_used_as_spec(spec_next)]
    pub fn next(self) -> (field: EditField)
        ensures
            field == self.spec_next(),
    {
        match self {
            EditField::Hours => EditField::Minutes,
            EditField::Minutes => EditField::Seconds,
            EditField::Seconds => EditField::Hours,
        }
    }

    #[verifier::when_used_as_spec(spec_prev)]
    pub fn prev(self) -> (field: EditField)
        ensures
            field == self.spec_prev(),
    {
        match self {
            EditField::Hours => EditField::Seconds,
            EditField::Minutes => EditField::Hours,
            EditField::Seconds => EditField::Minutes,
        }
    }

    #[verifier::when_used_as_spec(spec_edit_amount)]
    pub fn edit_amount(self) -> (amount: u32)
        ensures
            amount == self.spec_edit_amount(),
    {
        match self {
            EditField::Hours => 60 * 60,
            EditField::Minutes => 60,
            EditField::Seconds => 1,
        }
    }

    #[verifier::when_used_as_spec(spec_countdown_add)]
    pub fn countdown_add(self, counter: u32) -> (raised: u32)
        requires
            counter <= MAX_TIMER_COUNTDOWN,
        ensures
            raised == self.spec_countdown_add(counter),
            raised <= MAX_TIMER_COUNTDOWN,
    {
        let to_add = self.edit_amount();
        let diff = MAX_TIMER_COUNTDOWN - counter;
        if diff > to_add {
            counter + to_add
        } else {
            MAX_TIMER_COUNTDOWN
        }
    }

    #[verifier::when_used_as_spec(spec_countdown_sub)]
    pub fn countdown_sub(self, counter: u32) -> (lowered: u32)
        ensures
            lowered == self.spec_countdown_sub(counter),
            lowered <= counter,
    {
        let to_sub = self.edit_amount();
        if counter > to_sub {
            counter - to_sub
        } else {
            0
        }
    }
}

/// What the timer screen holds.
pub ghost struct TimerView {
    pub internal_state: TimerInternalState,
    pub countdown_selected: u32,
    pub edit_field: EditField,
    pub edit_speed: SpeedView,
    pub edit_acceleration: SpeedView,
}

impl TimerView {
    pub open spec fn wf(self) -> bool {
        self.countdown_selected <= MAX_TIMER_COUNTDOWN
    }

    /// The countdown after a step up or down; other directions leave it.
    pub open spec fn nudged(self, position: JoystickButton) -> TimerView {
        match position {
            JoystickButton::Up => TimerView {
                countdown_selected: self.edit_field.spec_countdown_add(self.countdown_selected),
                ..self
            },
            JoystickButton::Down => TimerView {
                countdown_selected: self.edit_field.spec_countdown_sub(self.countdown_selected),
                ..self
            },
            _ => self,
        }
    }

    /// With no countdown running: left and right leave the screen, center
    /// begins the choice of a countdown.
    pub open spec fn on_input_end(self, joystick: JoystickView) -> (TimerView, Option<Effect>) {
        if joystick.position is Some && joystick.prev_position is None {
            match joystick.position->0 {
                JoystickButton::Left => (self, Some(Effect::ChangeState(false))),
                JoystickButton::Right => (self, Some(Effect::ChangeState(true))),
                JoystickButton::Center => (
                    TimerView { internal_state: TimerInternalState::Edit, ..self },
                    None,
                ),
                _ => (self, None),
            }
        } else {
            (self, None)
        }
    }

    /// What a click does while the countdown is chosen: up and down change the
    /// field, left and right change to another field, center starts the
    /// countdown.
    pub open spec fn on_click_edit(self, position: JoystickButton) -> (TimerView, Option<Effect>) {
        match position {
            JoystickButton::Up | JoystickButton::Down => (self.nudged(position), None),
            JoystickButton::Left => (
                TimerView { edit_field: self.edit_field.spec_prev(), ..self },
                None,
            ),
            JoystickButton::Right => (
                TimerView { edit_field: self.edit_field.spec_next(), ..self },
                None,
            ),
            JoystickButton::Center => (
                TimerView { internal_state: TimerInternalState::TimerStarted, ..self },
                Some(Effect::StartCountdown(self.countdown_selected)),
            ),
        }
    }

    /// What holding does while the countdown is chosen: the field changes
    /// each time the pace divider fires, and the pace gets faster each time
    /// the acceleration divider fires.
    pub open spec fn on_hold_edit(self, position: JoystickButton) -> TimerView {
        let nudged = if self.edit_speed.fires() {
            self.nudged(position)
        } else {
            self
        };
        let paced = self.edit_speed.stepped();
        TimerView {
            edit_speed: if self.edit_acceleration.fires() {
                paced.faster()
            } else {
                paced
            },
            edit_acceleration: self.edit_acceleration.stepped(),
            ..nudged
        }
    }

    /// While the countdown is chosen. Without a direction nothing happens. A
    /// click acts once; a direction held for long enough repeats, faster and
    /// faster; one not held that long sets the pace back.
    pub open spec fn on_input_edit(self, joystick: JoystickView) -> (TimerView, Option<Effect>) {
        if joystick.position is None {
            (self, None)
        } else {
            let position = joystick.position->0;
            let (clicked, effect) = if joystick.prev_position is None {
                self.on_click_edit(position)
            } else {
                (self, None)
            };
            if joystick.time_wo_change > HOLD_DURATION_TICK {
                (clicked.on_hold_edit(position), effect)
            } else {
                (
                    TimerView {
                        edit_speed: SpeedView::slowest(SPEED_STEPS),
                        edit_acceleration: SpeedView::slowest(ACCELERAION_TICKS),
                        ..clicked
                    },
                    effect,
                )
            }
        }
    }

    /// With the countdown running: left and right leave the screen, center
    /// stops the countdown.
    pub open spec fn on_input_started(self, joystick: JoystickView) -> (
        TimerView,
        Option<Effect>,
    ) {
        if joystick.position is Some && joystick.prev_position is None {
            match joystick.position->0 {
                JoystickButton::Left => (self, Some(Effect::ChangeState(false))),
                JoystickButton::Right => (self, Some(Effect::ChangeState(true))),
                JoystickButton::Center => (
                    TimerView { internal_state: TimerInternalState::TimerEnd, ..self },
                    Some(Effect::StopCountdown),
                ),
                _ => (self, None),
            }
        } else {
            (self, None)
        }
    }

    pub open spec fn on_input(self, joystick: JoystickView) -> (TimerView, Option<Effect>) {
        match self.internal_state {
            TimerInternalState::TimerEnd => self.on_input_end(joystick),
            TimerInternalState::Edit => self.on_input_edit(joystick),
            TimerInternalState::TimerStarted => self.on_input_started(joystick),
        }
    }
}

pub struct TimerState {
    internal_state: TimerInternalState,
    countdown_selected: u32,
    edit_field: EditField,
    edit_speed: SpeedChanger<8>,
    edit_acceleration: SpeedChanger<10>,
}

impl View for TimerState {
    type V = TimerView;

    closed spec fn view(&self) -> TimerView {
        TimerView {
            internal_state: self.internal_state,
            countdown_selected: self.countdown_selected,
            edit_field: self.edit_field,
            edit_speed: self.edit_speed@,
            edit_acceleration: self.edit_acceleration@,
        }
    }
}

impl TimerState {
    /// The screen for a countdown that is running or not.
    pub fn new(timer_started: bool) -> (state: TimerState)
        ensures
            state@ == (TimerView {
                internal_state: if timer_started {
                    TimerInternalState::TimerStarted
                } else {
                    TimerInternalState::TimerEnd
                },
                countdown_selected: 0,
                edit_field: EditField::Seconds,
                edit_speed: SpeedView::slowest(SPEED_STEPS),
                edit_acceleration: SpeedView::slowest(ACCELERAION_TICKS),
            }),
            state@.wf(),
    {
        let mut start_int_state = TimerInternalState::TimerEnd;
        if timer_started {
            start_int_state = TimerInternalState::TimerStarted;
        }
        Self {
            internal_state: start_int_state,
            countdown_selected: 0,
            edit_field: EditField::Seconds,
            edit_speed: Default::default(),
            edit_acceleration: Default::default(),
        }
    }

    pub fn internal_state(&self) -> (state: TimerInternalState)
        ensures
            state == self@.internal_state,
    {
        self.internal_state
    }

    pub fn edit_field(&self) -> (field: EditField)
        ensures
            field == self@.edit_field,
    {
        self.edit_field
    }

    fn nudge(&mut self, position: JoystickButton)
        requires
            old(self)@.wf(),
        ensures
            final(self)@ == old(self)@.nudged(position),
            final(self)@.wf(),
    {
        match position {
            JoystickButton::Up => {
                self.countdown_selected = self.edit_field.countdown_add(self.countdown_selected);
            },
            JoystickButton::Down => {
                self.countdown_selected = self.edit_field.countdown_sub(self.countdown_selected);
            },
            _ => {},
        }
    }

    pub fn handle_input_end<J: Joystick>(&mut self, j: &J) -> (effect: Option<Effect>)
        requires
            old(self)@.wf(),
        ensures
            (final(self)@, effect) == old(self)@.on_input_end(j.memory()),
            final(self)@.wf(),
    {
        let position = *j.position();
        if position.is_none() {
            return None;
        }
        if j.clicked() {
            match position.unwrap() {
                JoystickButton::Left => {
                    return Some(Effect::ChangeState(false));
                },
                JoystickButton::Right => {
                    return Some(Effect::ChangeState(true));
                },
                JoystickButton::Center => {
                    self.internal_state = TimerInternalState::Edit;
                },
                _ => {},
            }
        }
        None
    }

    pub fn handle_input_edit<J: Joystick>(&mut self, j: &J) -> (effect: Option<Effect>)
        requires
            old(self)@.wf(),
        ensures
            (final(self)@, effect) == old(self)@.on_input_edit(j.memory()),
            final(self)@.wf(),
    {
        let position = *j.position();
        if position.is_none() {
            return None;
        }
        let pos = position.unwrap();
        let mut effect: Option<Effect> = None;
        if j.clicked() {
            match pos {
                JoystickButton::Up => self.nudge(pos),
                JoystickButton::Down => self.nudge(pos),
                JoystickButton::Left => {
                    self.edit_field = self.edit_field.prev();
                },
                JoystickButton::Right => {
                    self.edit_field = self.edit_field.next();
                },
                JoystickButton::Center => {
                    effect = Some(Effect::StartCountdown(self.countdown_selected));
                    self.internal_state = TimerInternalState::TimerStarted;
                },
            }
        }
        if j.hold_time() > HOLD_DURATION_TICK {
            if self.edit_speed.next_div() == 0 {
                self.nudge(pos);
            }
            if self.edit_acceleration.next_div() == 0 {
                self.edit_speed.decrement_max_div();
            }
        } else {
            self.edit_speed.reset();
            self.edit_acceleration.reset();
        }
        effect
    }

    pub fn handle_input_started<J: Joystick>(&mut self, j: &J) -> (effect: Option<Effect>)
        requires
            old(self)@.wf(),
        ensures
            (final(self)@, effect) == old(self)@.on_input_started(j.memory()),
            final(self)@.wf(),
    {
        let position = *j.position();
        if position.is_none() {
            return None;
        }
        if j.clicked() {
            match position.unwrap() {
                JoystickButton::Left => {
                    return Some(Effect::ChangeState(false));
                },
                JoystickButton::Right => {
                    return Some(Effect::ChangeState(true));
                },
                JoystickButton::Center => {
                    self.internal_state = TimerInternalState::TimerEnd;
                    return Some(Effect::StopCountdown);
                },
                _ => {},
            }
        }
        None
    }

    pub fn handle_input<J: Joystick>(&mut self, j: &J) -> (effect: Option<Effect>)
        requires
            old(self)@.wf(),
        ensures
            (final(self)@, effect) == old(self)@.on_input(j.memory()),
            final(self)@.wf(),
    {
        match self.internal_state {
            TimerInternalState::TimerEnd => self.handle_input_end(j),
            TimerInternalState::Edit => self.handle_input_edit(j),
            TimerInternalState::TimerStarted => self.handle_input_started(j),
        }
    }

    /// The countdown to show: none before the choice, the choice while it is
    /// made, and what is left of the countdown while it runs.
    pub fn countdown_to_draw(&self, remaining: u32) -> (countdown: u32)
        ensures
            countdown == match self@.internal_state {
                TimerInternalState::TimerEnd => 0,
                TimerInternalState::Edit => self@.countdown_selected,
                TimerInternalState::TimerStarted => remaining,
            },
    {
        match self.internal_state {
            TimerInternalState::TimerEnd => 0,
            TimerInternalState::Edit => self.countdown_selected,
            TimerInternalState::TimerStarted => remaining,
        }
    }

    /// The column of the marks above and below the field being changed.
    pub fn selector_column(&self) -> (x: i32)
        ensures
            x == match self@.edit_field {
                EditField::Hours => 36i32,
                EditField::Minutes => 64i32,
                EditField::Seconds => 92i32,
            },
    {
        match self.edit_field {
            EditField::Hours => 36,
            EditField::Minutes => 64,
            EditField::Seconds => 92,
        }
    }
}

} // verus!
