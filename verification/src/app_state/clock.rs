//! The clock: showing the time and setting it.

use vstd::prelude::*;

use super::Effect;
use crate::displayinfo::TimeOfDay;
use crate::joystick::{Joystick, JoystickButton, JoystickView};
use crate::speedchanger::{SpeedChanger, SpeedView};

verus! {

pub const SPEED_STEPS: u32 = 8;

pub const ACCELERAION_TICKS: u32 = 10;

/// A button counts as held after this many updates without change.
pub const HOLD_DURATION_TICK: u32 = 10;

#[derive(Debug, Clone, Copy, PartialEq, Eq, Structural)]
pub enum EditField {
    Hours,
    Minutes,
}

impl EditField {
    /// The other of the two fields.
    pub open spec fn spec_next(self) -> EditField {
        match self {
            EditField::Hours => EditField::Minutes,
            EditField::Minutes => EditField::Hours,
        }
    }

    /// The seconds that one step of the field is worth.
    pub open spec fn spec_edit_duration(self) -> u32 {
        match self {
            EditField::Hours => 3600,
            EditField::Minutes => 60,
        }
    }

    #[verifier::when_used_as_spec(spec_next)]
    pub fn next(self) -> (field: EditField)
        ensures
            field == self.spec_next(),
    {
        match self {
            EditField::Hours => EditField::Minutes,
            EditField::Minutes => EditField::Hours,
        }
    }

    /// With two fields the one before is the one after.
    pub fn prev(self) -> (field: EditField)
        ensures
            field == self.spec_next(),
    {
        self.next()
    }

    #[verifier::when_used_as_spec(spec_edit_duration)]
    pub fn edit_duration(self) -> (seconds: u32)
        ensures
            seconds == self.spec_edit_duration(),
    {
        match self {
            EditField::Hours => 3600,
            EditField::Minutes => 60,
        }
    }

    /// The time one step of the field later.
    pub fn time_add(self, time: TimeOfDay) -> (later: TimeOfDay)
        requires
            time.is_valid(),
        ensures
            later == time.shifted(self.spec_edit_duration() as int),
            later.is_valid(),
    {
        time.later(self.edit_duration())
    }

    /// The time one step of the field earlier.
    pub fn time_sub(self, time: TimeOfDay) -> (earlier: TimeOfDay)
        requires
            time.is_valid(),
        ensures
            earlier == time.shifted(-(self.spec_edit_duration() as int)),
            earlier.is_valid(),
    {
        time.earlier(self.edit_duration())
    }
}

/// What the clock screen holds.
pub ghost struct ClockView {
    pub display_time: TimeOfDay,
    pub edit_mode: bool,
    pub edit_field: EditField,
    pub edit_speed: SpeedView,
    pub edit_acceleration: SpeedView,
}

impl ClockView {
    pub open spec fn wf(self) -> bool {
        self.display_time.is_valid()
    }

    /// The time after a step up or down; other directions leave it.
    pub open spec fn nudged(self, position: JoystickButton) -> ClockView {
        match position {
            JoystickButton::Up => ClockView {
                display_time: self.display_time.shifted(
                    self.edit_field.spec_edit_duration() as int,
                ),
                ..self
            },
            JoystickButton::Down => ClockView {
                display_time: self.display_time.shifted(
                    -(self.edit_field.spec_edit_duration() as int),
                ),
                ..self
            },
            _ => self,
        }
    }

    /// A second has passed: the time on show goes on, unless it is being set.
    pub open spec fn ticked(self) -> ClockView {
        if self.edit_mode {
            self
        } else {
            ClockView { display_time: self.display_time.shifted(1), ..self }
        }
    }

    /// While the time is shown: left and right leave the screen; center
    /// begins the setting, at second zero.
    pub open spec fn on_input_normal_mode(self, joystick: JoystickView) -> (
        ClockView,
        Option<Effect>,
    ) {
        if joystick.prev_position is None && joystick.position is Some {
            match joystick.position->0 {
                JoystickButton::Left => (self, Some(Effect::ChangeState(false))),
                JoystickButton::Right => (self, Some(Effect::ChangeState(true))),
                JoystickButton::Center => (
                    ClockView {
                        edit_mode: true,
                        display_time: TimeOfDay { seconds: 0, ..self.display_time },
                        ..self
                    },
                    None,
                ),
                _ => (self, None),
            }
        } else {
            (self, None)
        }
    }

    /// What a click does while the time is set: up and down change the field,
    /// left and right change to the other field, center sets the clock chip
    /// and ends the setting.
    pub open spec fn on_click_edit(self, position: JoystickButton) -> (ClockView, Option<Effect>) {
        match position {
            JoystickButton::Up | JoystickButton::Down => (self.nudged(position), None),
            JoystickButton::Left | JoystickButton::Right => (
                ClockView { edit_field: self.edit_field.spec_next(), ..self },
                None,
            ),
            JoystickButton::Center => (
                ClockView { edit_mode: false, ..self },
                Some(Effect::SetTime(self.display_time)),
            ),
        }
    }

    /// What holding does while the time is set: the field changes each time
    /// the pace divider fires, and the pace gets faster each time the
    /// acceleration divider fires.
    pub open spec fn on_hold_edit(self, position: JoystickButton) -> ClockView {
        let nudged = if self.edit_speed.fires() {
            self.nudged(position)
        } else {
            self
        };
        let paced = self.edit_speed.stepped();
        ClockView {
            edit_speed: if self.edit_acceleration.fires() {
                paced.faster()
            } else {
                paced
            },
            edit_acceleration: self.edit_acceleration.stepped(),
            ..nudged
        }
    }

    /// While the time is set. Without a direction nothing happens. A click
    /// acts once; a direction held for long enough repeats, faster and
    /// faster; one not held that long sets the pace back.
    pub open spec fn on_input_edit_mode(self, joystick: JoystickView) -> (
        ClockView,
        Option<Effect>,
    ) {
        if joystick.position is None {
            (self, None)
        } else {
            let position = joystick.position->0;
            let (clicked, effect) = if joystick.prev_position is None {
                self.on_click_edit(position)
            } else {
                (self, None)
            };
            if joystick.time_wo_change > HOLD_DURATION_TICK {
                (clicked.on_hold_edit(position), effect)
            } else {
                (
                    ClockView {
                        edit_speed: SpeedView::slowest(SPEED_STEPS),
                        edit_acceleration: SpeedView::slowest(ACCELERAION_TICKS),
                        ..clicked
                    },
                    effect,
                )
            }
        }
    }

    pub open spec fn on_input(self, joystick: JoystickView) -> (ClockView, Option<Effect>) {
        if self.edit_mode {
            self.on_input_edit_mode(joystick)
        } else {
            self.on_input_normal_mode(joystick)
        }
    }
}

pub struct ClockState {
    display_time: TimeOfDay,
    edit_mode: bool,
    edit_field: EditField,
    edit_speed: SpeedChanger<8>,
    edit_acceleration: SpeedChanger<10>,
}

impl View for ClockState {
    type V = ClockView;

    closed spec fn view(&self) -> ClockView {
        ClockView {
            display_time: self.display_time,
            edit_mode: self.edit_mode,
            edit_field: self.edit_field,
            edit_speed: self.edit_speed@,
            edit_acceleration: self.edit_acceleration@,
        }
    }
}

impl ClockState {
    /// The screen at midnight, until the time of the clock chip is known.
    pub fn new() -> (state: ClockState)
        ensures
            state@ == (ClockView {
                display_time: TimeOfDay { hours: 0, minutes: 0, seconds: 0 },
                edit_mode: false,
                edit_field: EditField::Minutes,
                edit_speed: SpeedView::slowest(SPEED_STEPS),
                edit_acceleration: SpeedView::slowest(ACCELERAION_TICKS),
            }),
            state@.wf(),
    {
        Self {
            display_time: TimeOfDay::midnight(),
            edit_mode: false,
            edit_field: EditField::Minutes,
            edit_speed: Default::default(),
            edit_acceleration: Default::default(),
        }
    }

    /// The screen comes up with the time of the clock chip.
    pub fn enter(&mut self, time: TimeOfDay)
        requires
            time.is_valid(),
        ensures
            final(self)@ == (ClockView { display_time: time, ..old(self)@ }),
            final(self)@.wf(),
    {
        self.display_time = time;
    }

    pub fn display_time(&self) -> (time: TimeOfDay)
        ensures
            time == self@.display_time,
    {
        self.display_time
    }

    pub fn edit_mode(&self) -> (edit: bool)
        ensures
            edit == self@.edit_mode,
    {
        self.edit_mode
    }

    pub fn edit_field(&self) -> (field: EditField)
        ensures
            field == self@.edit_field,
    {
        self.edit_field
    }

    pub fn tick(&mut self)
        requires
            old(self)@.wf(),
        ensures
            final(self)@ == old(self)@.ticked(),
            final(self)@.wf(),
    {
        if !self.edit_mode {
            self.display_time = self.display_time.later(1);
        }
    }

    fn nudge(&mut self, position: JoystickButton)
        requires
            old(self)@.wf(),
        ensures
            final(self)@ == old(self)@.nudged(position),
            final(self)@.wf(),
    {
        match position {
            JoystickButton::Up => {
                self.display_time = self.edit_field.time_add(self.display_time);
            },
            JoystickButton::Down => {
                self.display_time = self.edit_field.time_sub(self.display_time);
            },
            _ => {},
        }
    }

    /// In normal mode allow navigation and mode switch
    pub fn handle_input_normal_mode<J: Joystick>(&mut self, j: &J) -> (effect: Option<Effect>)
        requires
            old(self)@.wf(),
        ensures
            (final(self)@, effect) == old(self)@.on_input_normal_mode(j.memory()),
            final(self)@.wf(),
    {
        let position = *j.position();
        if j.clicked() && position.is_some() {
            match position.unwrap() {
                JoystickButton::Left => {
                    return Some(Effect::ChangeState(false));
                },
                JoystickButton::Right => {
                    return Some(Effect::ChangeState(true));
                },
                JoystickButton::Center => {
                    self.edit_mode = true;
                    self.display_time = self.display_time.reset_seconds();
                },
                _ => {},
            }
        }
        None
    }

    /// In edit mode navigation unavaiable
    pub fn handle_input_edit_mode<J: Joystick>(&mut self, j: &J) -> (effect: Option<Effect>)
        requires
            old(self)@.wf(),
        ensures
            (final(self)@, effect) == old(self)@.on_input_edit_mode(j.memory()),
            final(self)@.wf(),
    {
        let position = *j.position();
        if position.is_none() {
            return None;
        }
        let pos = position.unwrap();
        let mut effect: Option<Effect> = None;
        if j.clicked() {
            match pos {
                JoystickButton::Up => self.nudge(pos),
                JoystickButton::Down => self.nudge(pos),
                JoystickButton::Left => {
                    self.edit_field = self.edit_field.prev();
                },
                JoystickButton::Right => {
                    self.edit_field = self.edit_field.next();
                },
                JoystickButton::Center => {
                    effect = Some(Effect::SetTime(self.display_time));
                    self.edit_mode = false;
                },
            }
        }
        if j.hold_time() > HOLD_DURATION_TICK {
            if self.edit_speed.next_div() == 0 {
                self.nudge(pos);
            }
            if self.edit_acceleration.next_div() == 0 {
                self.edit_speed.decrement_max_div();
            }
        } else {
            self.edit_speed.reset();
            self.edit_acceleration.reset();
        }
        effect
    }

    pub fn handle_input<J: Joystick>(&mut self, j: &J) -> (effect: Option<Effect>)
        requires
            old(self)@.wf(),
        ensures
            (final(self)@, effect) == old(self)@.on_input(j.memory()),
            final(self)@.wf(),
    {
        if self.edit_mode {
            self.handle_input_edit_mode(j)
        } else {
            self.handle_input_normal_mode(j)
        }
    }

    /// The column of the marks above and below the field being set.
    pub fn selector_column(&self) -> (x: i32)
        ensures
            x == match self@.edit_field {
                EditField::Hours => 36i32,
                EditField::Minutes => 64i32,
            },
    {
        match self.edit_field {
            EditField::Hours => 36,
            EditField::Minutes => 64,
        }
    }
}

} // verus!
