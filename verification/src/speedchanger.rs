//! Runs something once in so many calls, and more and more often on demand:
//! what makes a held button count faster the longer it is held.

use vstd::prelude::*;

verus! {

/// What a divider holds.
pub ghost struct SpeedView {
    /// The value from which the divider restarts.
    pub max_div: u32,
    /// The calls left before the divider fires.
    pub div: u32,
}

impl SpeedView {
    /// The divider after one more call: one less, or back at the maximum
    /// after it fired.
    pub open spec fn next_div(self) -> u32 {
        if self.div > 0 {
            (self.div - 1) as u32
        } else {
            self.max_div
        }
    }

    /// Does the next call fire?
    pub open spec fn fires(self) -> bool {
        self.next_div() == 0
    }

    /// The divider after one more call.
    pub open spec fn stepped(self) -> SpeedView {
        SpeedView { div: self.next_div(), ..self }
    }

    /// The divider one step faster: the maximum is one less, and the step
    /// counts as a call. At maximum zero nothing changes.
    pub open spec fn faster(self) -> SpeedView {
        if self.max_div > 0 {
            (SpeedView { max_div: (self.max_div - 1) as u32, ..self }).stepped()
        } else {
            self
        }
    }

    /// The divider at its slowest.
    pub open spec fn slowest(reset_div: u32) -> SpeedView {
        SpeedView { max_div: reset_div, div: reset_div }
    }
}

/// A divider that counts down from a maximum and fires on zero. `RESET_DIV`
/// is the maximum that a reset restores.
pub struct SpeedChanger<const RESET_DIV: u32> {
    current_max_div: u32,
    current_div: u32,
}

impl<const RESET_DIV: u32> View for SpeedChanger<RESET_DIV> {
    type V = SpeedView;

    closed spec fn view(&self) -> SpeedView {
        SpeedView { max_div: self.current_max_div, div: self.current_div }
    }
}

impl<const RESET_DIV: u32> Default for SpeedChanger<RESET_DIV> {
    fn default() -> (changer: Self)
        ensures
            changer@ == SpeedView::slowest(RESET_DIV),
    {
        Self { current_max_div: RESET_DIV, current_div: RESET_DIV }
    }
}

impl<const RESET_DIV: u32> SpeedChanger<RESET_DIV> {
    /// Counts one call, and runs the function if the divider is at zero after
    /// it.
    pub fn execute<F: Fn()>(&mut self, function: F)
        requires
            function.requires(()),
        ensures
            final(self)@ == old(self)@.stepped(),
    {
        if self.next_div() == 0 {
            function();
        }
    }

    /// Back to the slowest pace.
    pub fn reset(&mut self)
        ensures
            final(self)@ == SpeedView::slowest(RESET_DIV),
    {
        self.current_max_div = RESET_DIV;
        self.current_div = RESET_DIV;
    }

    /// One step faster, unless the pace is the fastest already; the step also
    /// counts as a call.
    pub fn decrement_max_div(&mut self)
        ensures
            final(self)@ == old(self)@.faster(),
    {
        let current = self.current_max_div;
        if current > 0 {
            self.current_max_div = current - 1;
            self.next_div();
        } else {
            self.current_max_div = 0;
        }
    }

    /// Counts one call and returns the divider after it.
    pub fn next_div(&mut self) -> (div: u32)
        ensures
            div == old(self)@.next_div(),
            final(self)@ == old(self)@.stepped(),
    {
        let current = self.current_div;
        if current > 0 {
            self.current_div = current - 1;
            current - 1
        } else {
            let max = self.current_max_div;
            self.current_div = max;
            max
        }
    }
}

} // verus!
