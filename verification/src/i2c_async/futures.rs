use core::task::Poll;
use vstd::prelude::*;

use super::model::MAX_COMMANDS;
use super::states::State;
use super::transaction::Transaction;
use super::Error;

verus! {

/// `core::task::Poll`, with its two variants.
#[verifier::external_type_specification]
#[verifier::reject_recursive_types(T)]
pub struct ExPoll<T>(Poll<T>);

/// What a poll answers for a slot in this state: nothing before the verdict,
/// then the verdict.
pub open spec fn poll_of(state: State) -> Poll<Result<(), Error>> {
    match state {
        State::Finished => Poll::Ready(Ok(())),
        State::Fail(e) => Poll::Ready(Err(e)),
        _ => Poll::Pending,
    }
}

/// A handle on one queued transaction: the slot where its verdict appears.
#[derive(Debug)]
pub struct I2COperationFuture {
    position: usize,
}

impl I2COperationFuture {
    /// The slot that the handle is bound to.
    pub closed spec fn slot(&self) -> int {
        self.position as int
    }

    pub fn new(position: usize) -> (future: I2COperationFuture)
        ensures
            future.slot() == position,
    {
        Self { position }
    }

    pub fn position(&self) -> (position: usize)
        ensures
            position == self.slot(),
    {
        self.position
    }

    /// Looks at the slot without touching the engine: pending until the slot
    /// has its verdict, then the verdict.
    pub fn ready(&self, ctx: &Transaction) -> (poll: Poll<Result<(), Error>>)
        requires
            self.slot() < MAX_COMMANDS,
        ensures
            poll == poll_of(ctx@.states[self.slot()]),
    {
        if ctx.finished(self.position) {
            match ctx.state_at(self.position) {
                State::Fail(e) => Poll::Ready(Err(e)),
                _ => Poll::Ready(Ok(())),
            }
        } else {
            Poll::Pending
        }
    }

    /// The verdict of a slot that has one. Waiting for it is the caller's
    /// part: the engine only moves while nobody else holds it.
    pub fn block(&self, ctx: &Transaction) -> (verdict: Result<(), Error>)
        requires
            self.slot() < MAX_COMMANDS,
            ctx@.states[self.slot()].is_terminal(),
        ensures
            Poll::Ready(verdict) == poll_of(ctx@.states[self.slot()]),
    {
        match self.ready(ctx) {
            Poll::Ready(verdict) => verdict,
            Poll::Pending => vstd::pervasive::unreached(),
        }
    }
}

} // verus!
