//! The stopwatch: starting, pausing and setting back.

use vstd::prelude::*;

use super::Effect;
use crate::joystick::{Joystick, JoystickButton, JoystickView};

verus! {

/// What a click asks for on the stopwatch screen: left and right leave the
/// screen, center starts or pauses, down stops and sets back.
pub open spec fn on_input(joystick: JoystickView, started: bool) -> Option<Effect> {
    if joystick.prev_position is None && joystick.position is Some {
        match joystick.position->0 {
            JoystickButton::Left => Some(Effect::ChangeState(false)),
            JoystickButton::Right => Some(Effect::ChangeState(true)),
            JoystickButton::Center => if started {
                Some(Effect::PauseStopwatch)
            } else {
                Some(Effect::StartStopwatch)
            },
            JoystickButton::Down => Some(Effect::StopStopwatch),
            _ => None,
        }
    } else {
        None
    }
}

pub struct StopwatchState {}

impl StopwatchState {
    pub fn new() -> StopwatchState {
        StopwatchState {  }
    }

    pub fn handle_input<J: Joystick>(&self, j: &J, started: bool) -> (effect: Option<Effect>)
        ensures
            effect == on_input(j.memory(), started),
    {
        if j.clicked() {
            let position = *j.position();
            match position {
                Some(JoystickButton::Left) => Some(Effect::ChangeState(false)),
                Some(JoystickButton::Right) => Some(Effect::ChangeState(true)),
                Some(JoystickButton::Center) => {
                    if started {
                        Some(Effect::PauseStopwatch)
                    } else {
                        Some(Effect::StartStopwatch)
                    }
                },
                Some(JoystickButton::Down) => Some(Effect::StopStopwatch),
                _ => None,
            }
        } else {
            None
        }
    }
}

} // verus!
