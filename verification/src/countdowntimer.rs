//! The countdown behind the timer: a number of seconds that runs down to zero
//! and then sounds the buzzer.

use vstd::prelude::*;

verus! {

#[derive(Debug, Clone, Copy, PartialEq, Eq, Structural)]
pub struct CountdownTimer {
    countdown: u32,
    started: bool,
}

impl CountdownTimer {
    pub closed spec fn remaining(&self) -> u32 {
        self.countdown
    }

    pub closed spec fn running(&self) -> bool {
        self.started
    }

    pub fn new() -> (timer: CountdownTimer)
        ensures
            timer.remaining() == 0,
            !timer.running(),
    {
        CountdownTimer { countdown: 0, started: false }
    }

    pub fn start(&mut self, countdown_seconds: u32)
        ensures
            final(self).remaining() == countdown_seconds,
            final(self).running(),
    {
        self.countdown = countdown_seconds;
        self.started = true;
    }

    pub fn stop(&mut self)
        ensures
            final(self).remaining() == 0,
            !final(self).running(),
    {
        self.countdown = 0;
        self.started = false;
    }

    /// One second has passed. A running countdown goes down by one; at zero
    /// it stays, and the result says that the buzzer is due.
    pub fn handle_it(&mut self) -> (buzz: bool)
        ensures
            final(self).running() == old(self).running(),
            buzz == (old(self).running() && old(self).remaining() == 0),
            final(self).remaining() == if old(self).running() && old(self).remaining() > 0 {
                (old(self).remaining() - 1) as u32
            } else {
                old(self).remaining()
            },
    {
        if self.started {
            if self.countdown > 0 {
                self.countdown -= 1;
            } else {
                return true;
            }
        }
        false
    }

    pub fn countdown(&self) -> (countdown: u32)
        ensures
            countdown == self.remaining(),
    {
        self.countdown
    }

    pub fn started(&self) -> (started: bool)
        ensures
            started == self.running(),
    {
        self.started
    }
}

} // verus!
