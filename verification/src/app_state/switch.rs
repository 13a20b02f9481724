use vstd::prelude::*;

verus! {

/// Trait allow to switch state from one to another
pub trait SwitchState<T> {
    fn switch(&mut self, new_state: T);
}

} // verus!
