//! The count behind the stopwatch: milliseconds that add up while it runs.

use vstd::prelude::*;

verus! {

/// Step between timer interrupts
pub const TIMER_MS_STEP: u32 = 100;

#[derive(Debug, Clone, Copy, PartialEq, Eq, Structural)]
pub struct StopwatchTimer {
    elapsed: u32,
    started: bool,
}

impl StopwatchTimer {
    pub closed spec fn total(&self) -> u32 {
        self.elapsed
    }

    pub closed spec fn running(&self) -> bool {
        self.started
    }

    pub fn new() -> (timer: StopwatchTimer)
        ensures
            timer.total() == 0,
            !timer.running(),
    {
        StopwatchTimer { elapsed: 0, started: false }
    }

    pub fn start(&mut self)
        ensures
            final(self).running(),
            final(self).total() == old(self).total(),
    {
        self.started = true;
    }

    pub fn stop(&mut self)
        ensures
            !final(self).running(),
            final(self).total() == 0,
    {
        self.elapsed = 0;
        self.started = false;
    }

    pub fn pause(&mut self)
        ensures
            !final(self).running(),
            final(self).total() == old(self).total(),
    {
        self.started = false;
    }

    /// One step of the timer has passed. The count of a running stopwatch
    /// grows by the step, and starts over from zero past the largest number.
    pub fn increment(&mut self)
        ensures
            final(self).running() == old(self).running(),
            final(self).total() == if old(self).running() {
                ((old(self).total() + TIMER_MS_STEP) % 0x1_0000_0000) as u32
            } else {
                old(self).total()
            },
    {
        if self.started {
            self.elapsed = self.elapsed.wrapping_add(TIMER_MS_STEP);
        }
    }

    pub fn elapsed(&self) -> (elapsed: u32)
        ensures
            elapsed == self.total(),
    {
        self.elapsed
    }

    pub fn started(&self) -> (started: bool)
        ensures
            started == self.running(),
    {
        self.started
    }
}

} // verus!
