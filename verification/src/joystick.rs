//! A five-way joystick: which direction is held, since when, and whether it
//! was just pressed or let go.

use vstd::prelude::*;

verus! {

/// Something that is pressed or not. What a reading returns is up to the
/// hardware.
pub trait Button {
    fn pressed(&self) -> bool;
}

#[derive(Debug, Clone, Copy, PartialEq, Eq, Structural)]
pub enum JoystickButton {
    Up,
    Down,
    Left,
    Right,
    Center,
}

/// The direction that counts when the five buttons read like this: the first
/// one pressed, in the order up, down, left, right, center.
pub open spec fn spec_resolve(up: bool, down: bool, left: bool, right: bool, center: bool) -> Option<
    JoystickButton,
> {
    if up {
        Some(JoystickButton::Up)
    } else if down {
        Some(JoystickButton::Down)
    } else if left {
        Some(JoystickButton::Left)
    } else if right {
        Some(JoystickButton::Right)
    } else if center {
        Some(JoystickButton::Center)
    } else {
        None
    }
}

/// The direction that counts when the five buttons read like this.
#[verifier::when_used_as_spec(spec_resolve)]
pub fn resolve(up: bool, down: bool, left: bool, right: bool, center: bool) -> (position: Option<
    JoystickButton,
>)
    ensures
        position == spec_resolve(up, down, left, right, center),
{
    if up {
        Some(JoystickButton::Up)
    } else if down {
        Some(JoystickButton::Down)
    } else if left {
        Some(JoystickButton::Left)
    } else if right {
        Some(JoystickButton::Right)
    } else if center {
        Some(JoystickButton::Center)
    } else {
        None
    }
}

pub trait Joystick {
    /// What the joystick remembers.
    spec fn memory(&self) -> JoystickView;

    /// Current joystick position
    fn position(&self) -> (position: &Option<JoystickButton>)
        ensures
            *position == self.memory().position,
    ;

    /// Is current position just clicked
    fn clicked(&self) -> (clicked: bool)
        ensures
            clicked == (self.memory().prev_position is None && self.memory().position is Some),
    ;

    /// Is joystick just unpressed
    fn just_unpressed(&self) -> (unpressed: bool)
        ensures
            unpressed == (self.memory().prev_position is Some && self.memory().position is None),
    ;

    /// How many update intervals passed from pressing
    fn hold_time(&self) -> (time: u32)
        ensures
            time == self.memory().time_wo_change,
    ;

    /// Update joystick status: whatever position is found, the old one
    /// becomes the previous one, and the time without change goes on or
    /// starts again.
    fn update(&mut self)
        requires
            old(self).memory().time_wo_change < u32::MAX,
        ensures
            final(self).memory() == old(self).memory().advanced(final(self).memory().position),
    ;
}

/// What a joystick remembers from one update to the next.
pub ghost struct JoystickView {
    pub prev_position: Option<JoystickButton>,
    pub position: Option<JoystickButton>,
    pub time_wo_change: u32,
}

impl JoystickView {
    /// The memory after an update that found this position: the old position
    /// is the previous one, and the time without change starts again unless
    /// the position is the same.
    pub open spec fn advanced(self, position: Option<JoystickButton>) -> JoystickView {
        JoystickView {
            prev_position: self.position,
            position,
            time_wo_change: if position == self.position {
                (self.time_wo_change + 1) as u32
            } else {
                0
            },
        }
    }
}

pub struct AccessoryShieldJoystick<U, D, L, R, C> where
    U: Button,
    D: Button,
    L: Button,
    R: Button,
    C: Button,
 {
    up: U,
    down: D,
    left: L,
    right: R,
    center: C,
    prev_position: Option<JoystickButton>,
    position: Option<JoystickButton>,
    time_wo_change: u32,
}

impl<U, D, L, R, C> View for AccessoryShieldJoystick<U, D, L, R, C> where
    U: Button,
    D: Button,
    L: Button,
    R: Button,
    C: Button,
 {
    type V = JoystickView;

    closed spec fn view(&self) -> JoystickView {
        JoystickView {
            prev_position: self.prev_position,
            position: self.position,
            time_wo_change: self.time_wo_change,
        }
    }
}

impl<U, D, L, R, C> AccessoryShieldJoystick<U, D, L, R, C> where
    U: Button,
    D: Button,
    L: Button,
    R: Button,
    C: Button,
 {
    pub fn new(up: U, down: D, left: L, right: R, center: C) -> (joystick: Self)
        ensures
            joystick@ == (JoystickView { prev_position: None, position: None, time_wo_change: 0 }),
    {
        AccessoryShieldJoystick {
            up,
            down,
            left,
            right,
            center,
            prev_position: None,
            position: None,
            time_wo_change: 0,
        }
    }

    /// Takes note of the position that an update found.
    pub fn advance(&mut self, position: Option<JoystickButton>)
        requires
            old(self)@.time_wo_change < u32::MAX,
        ensures
            final(self)@ == old(self)@.advanced(position),
    {
        self.prev_position = self.position;
        self.position = position;
        let same = match (self.prev_position, self.position) {
            (None, None) => true,
            (Some(before), Some(now)) => before == now,
            _ => false,
        };
        if same {
            self.time_wo_change += 1;
        } else {
            self.time_wo_change = 0;
        }
    }
}

impl<U, D, L, R, C> Joystick for AccessoryShieldJoystick<U, D, L, R, C> where
    U: Button,
    D: Button,
    L: Button,
    R: Button,
    C: Button,
 {
    open spec fn memory(&self) -> JoystickView {
        self@
    }

    fn position(&self) -> (position: &Option<JoystickButton>) {
        &self.position
    }

    fn clicked(&self) -> (clicked: bool) {
        self.prev_position.is_none() && self.position.is_some()
    }

    fn just_unpressed(&self) -> (unpressed: bool) {
        self.prev_position.is_some() && self.position.is_none()
    }

    fn hold_time(&self) -> (time: u32) {
        self.time_wo_change
    }

    fn update(&mut self) {
        let up = self.up.pressed();
        let down = self.down.pressed();
        let left = self.left.pressed();
        let right = self.right.pressed();
        let center = self.center.pressed();
        self.advance(resolve(up, down, left, right, center));
    }
}

} // verus!
