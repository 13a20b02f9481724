use vstd::prelude::*;

use super::Error;

verus! {

/// The phase of the transaction that owns a slot.
#[derive(Debug, Clone, Copy, PartialEq, Eq, Structural)]
pub enum State {
    /// Queued, or waiting for its start condition to reach the wire.
    Begin,
    /// The start condition was sent.
    StartGenerated,
    /// The address was acknowledged.
    AddressSend,
    /// Data bytes are moving.
    ByteProcessing,
    /// A read is waiting for its final byte.
    LastByte,
    /// The transaction was abandoned after a fault.
    Fail(Error),
    /// Every byte was transferred.
    Finished,
}

impl State {
    /// The two states in which a transaction is over.
    pub open spec fn is_terminal(self) -> bool {
        self is Finished || self is Fail
    }

    /// The state recorded when a transaction leaves the queue: a recorded
    /// fault stays, anything else becomes `Finished`.
    pub open spec fn settled(self) -> State {
        if self is Fail {
            self
        } else {
            State::Finished
        }
    }
}

impl Default for State {
    fn default() -> (state: State)
        ensures
            state == State::Begin,
    {
        State::Begin
    }
}

} // verus!
