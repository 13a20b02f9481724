//! What holds of the engine whatever happens to it.

use vstd::prelude::*;

use core::task::Poll;

use super::futures::poll_of;
use super::model::{
    acceptable, chain, fault_of, is_group, refined, Step, TransactionView, MAX_COMMANDS,
    QUEUE_CAPACITY,
};
use super::states::State;
use super::transaction::CommandView;
use super::{BusAction, Error, I2CEventInterrupt, StatusFlags};

verus! {

/// The end of a command leaves the engine in order.
pub proof fn lemma_command_ended_keeps_inv(view: TransactionView)
    requires
        view.wf(),
        view.commands.len() > 0,
        view.commands.len() == 4 ==> view.states[view.next_position()] == State::Begin,
    ensures
        view.command_ended().0.inv(),
{
    let after = view.command_ended().0;
    if view.head() is Write && view.head_len() == 3 {
        assert(view.commands.len() == 3);
        assert(after.commands =~= view.commands.skip(1));
    } else {
        if view.commands.len() == 4 {
            assert(view.commands.take(2)[1] is NoOp);
            assert(after.commands =~= view.commands.skip(2));
        } else {
            assert(after.commands =~= Seq::empty());
        }
    }
}

/// A byte stored in the buffer of the front command changes nothing else.
pub proof fn lemma_captured_keeps_wf(view: TransactionView, value: u8)
    requires
        view.wf(),
        view.commands.len() > 0,
    ensures
        view.captured(value).wf(),
        view.captured(value).commands.len() == view.commands.len(),
        view.captured(value).states == view.states,
        view.captured(value).state_position == view.state_position,
        view.captured(value).head() is Read <==> view.head() is Read,
        view.captured(value).head() is Write <==> view.head() is Write,
        view.captured(value).head_len() == view.head_len(),
        view.captured(value).head().buffer().len() == view.head().buffer().len(),
{
    let after = view.captured(value);
    if view.commands.len() == 4 {
        assert(view.commands.take(2)[0].is_data());
        assert(view.commands.take(2)[1] is NoOp);
        assert(view.commands.skip(2)[0].is_data());
        assert(view.commands.skip(2)[1] is NoOp);
        assert(after.commands.take(2)[0].is_data());
        assert(after.commands.take(2)[1] is NoOp);
        assert(after.commands.skip(2) =~= view.commands.skip(2));
    }
}

/// An event leaves the engine in order.
pub proof fn lemma_event_keeps_inv(view: TransactionView, reason: I2CEventInterrupt, value: u8)
    requires
        view.inv(),
        view.commands.len() > 0,
    ensures
        view.on_event(reason, value).0.inv(),
{
    match reason {
        I2CEventInterrupt::StartBitSent => {},
        I2CEventInterrupt::AddressSent => {
            let entered = view.with_state(State::AddressSend);
            if view.head() is Write {
                if !(entered.buffer_position < entered.head().buffer().len()) {
                    lemma_command_ended_keeps_inv(entered);
                }
            }
        },
        I2CEventInterrupt::DataByteTransferFinished => {
            if view.head() is Read {
                let phase = if view.state() == State::AddressSend {
                    State::ByteProcessing
                } else {
                    view.state()
                };
                let entered = view.with_state(phase);
                if view.head().buffer().len() == 0 {
                    lemma_command_ended_keeps_inv(entered);
                } else {
                    lemma_captured_keeps_wf(entered, value);
                    let stored = entered.captured(value);
                    if phase == State::LastByte {
                        lemma_command_ended_keeps_inv(stored);
                    }
                }
            } else {
                let entered = view.with_state(State::ByteProcessing);
                if !(entered.buffer_position < entered.head().buffer().len()) {
                    lemma_command_ended_keeps_inv(entered);
                }
            }
        },
        I2CEventInterrupt::Unknown => {},
    }
}

/// A transaction that leaves the queue leaves the engine in order.
pub proof fn lemma_retired_keeps_inv(view: TransactionView)
    requires
        view.wf(),
        view.commands.len() > 0,
        view.commands.len() == 4 ==> view.states[view.next_position()] == State::Begin,
    ensures
        view.retired().inv(),
        view.retired().commands.len() == view.commands.len() - view.head_len(),
{
    let after = view.retired();
    if view.commands.len() == 4 {
        assert(view.commands.take(2)[1] is NoOp);
        assert(after.commands =~= view.commands.skip(2));
    } else {
        assert(after.commands =~= Seq::empty());
    }
}

/// An error interrupt leaves the engine in order.
pub proof fn lemma_error_keeps_inv(view: TransactionView, status: StatusFlags)
    requires
        view.inv(),
    ensures
        view.on_error(status).0.inv(),
{
    match fault_of(status) {
        Some(fault) => {
            let marked = view.with_state(State::Fail(super::model::refined(fault, view.state())));
            if view.commands.len() > 0 {
                lemma_retired_keeps_inv(marked);
            }
        },
        None => {},
    }
}

/// A request leaves the engine in order.
pub proof fn lemma_request_keeps_inv(view: TransactionView, commands: Seq<CommandView>)
    requires
        view.inv(),
        acceptable(commands),
    ensures
        view.on_request(commands).0.inv(),
{
    if view.has_room(commands.len() as int) {
        let after = view.enqueued(commands);
        let group = commands.push(CommandView::NoOp);
        assert(commands[0].is_data());
        if view.commands.len() > 0 {
            assert(view.commands.len() == 2);
            assert(after.commands.take(2) =~= view.commands);
            assert(after.commands.skip(2) =~= group);
        } else {
            assert(after.commands =~= group);
        }
    }
}

/// Whatever happens, the engine stays in order.
pub proof fn lemma_step_keeps_inv(view: TransactionView, step: Step)
    requires
        view.inv(),
        view.admits(step),
    ensures
        view.after(step).0.inv(),
{
    match step {
        Step::Request(commands) => lemma_request_keeps_inv(view, commands),
        Step::Event(reason, value) => lemma_event_keeps_inv(view, reason, value),
        Step::Fault(status) => lemma_error_keeps_inv(view, status),
    }
}

/// The engine is in order at boot.
pub proof fn law_boot_in_order()
    ensures
        TransactionView::initial().inv(),
{
}

/// Whatever happens from a state in order, in whatever sequence, the engine
/// stays in order; so the queue never holds more than its capacity, and a
/// transaction in progress never has its verdict yet.
pub proof fn law_always_in_order(view: TransactionView, steps: Seq<Step>)
    requires
        view.inv(),
        view.admits_all(steps),
    ensures
        view.after_all(steps).inv(),
        view.after_all(steps).commands.len() <= QUEUE_CAPACITY,
    decreases steps.len(),
{
    if steps.len() > 0 {
        law_always_in_order(view, steps.drop_last());
        lemma_step_keeps_inv(view.after_all(steps.drop_last()), steps.last());
    }
}

/// A request for which the queue has no room, end marker counted, changes
/// nothing and asks for nothing; one for which it has room makes the queue
/// longer by the commands and the marker, and no longer than its capacity.
pub proof fn law_request_fits_or_changes_nothing(view: TransactionView, commands: Seq<CommandView>)
    requires
        view.inv(),
        acceptable(commands),
    ensures
        !view.has_room(commands.len() as int) ==> view.on_request(commands) == (
            view,
            Seq::<BusAction>::empty(),
        ),
        view.has_room(commands.len() as int) ==> view.on_request(commands).0.commands
            == view.commands + commands.push(CommandView::NoOp),
        view.on_request(commands).0.commands.len() <= QUEUE_CAPACITY,
{
}

/// A start condition is asked for in three situations only. The bus is idle
/// and a request arrives. Or a write hands over to the next command of its
/// own transaction: the slot stays, and only that write leaves the queue. Or
/// the transaction in progress is over: its slot has its verdict, all its
/// commands have left the queue, end marker included, and the transaction
/// that waited behind it is at its beginning in the slot after.
pub proof fn law_start_only_between_transactions(view: TransactionView, step: Step)
    requires
        view.inv(),
        view.admits(step),
    ensures
        ({
            let (after, actions) = view.after(step);
            actions.contains(BusAction::GenerateStart) ==> {
                ||| step is Request && view.commands.len() == 0
                ||| {
                    &&& !(step is Request)
                    &&& view.commands.len() > 0
                    &&& view.head() is Write
                    &&& after.state_position == view.state_position
                    &&& after.commands == view.commands.skip(1)
                    &&& after.commands.len() > 0
                    &&& after.state() == State::Begin
                }
                ||| {
                    &&& !(step is Request)
                    &&& view.commands.len() > 0
                    &&& after.states[view.state_position].is_terminal()
                    &&& after.commands == view.commands.skip(view.head_len())
                    &&& after.state_position == view.next_position()
                    &&& after.commands.len() > 0
                    &&& after.state() == State::Begin
                }
            }
        }),
{
    let (after, actions) = view.after(step);
    if actions.contains(BusAction::GenerateStart) {
        match step {
            Step::Request(commands) => {
                if view.commands.len() > 0 {
                    assert(actions =~= Seq::empty());
                }
            },
            Step::Event(reason, value) => {
                lemma_event_starts(view, reason, value);
            },
            Step::Fault(status) => {
                lemma_fault_starts(view, status);
            },
        }
    }
}

/// What the end of a command does, spelled out.
pub proof fn lemma_command_ended_starts(view: TransactionView)
    requires
        view.wf(),
        view.commands.len() > 0,
        view.commands.len() == 4 ==> view.states[view.next_position()] == State::Begin,
    ensures
        ({
            let (after, actions) = view.command_ended();
            {
                ||| {
                    &&& view.head() is Write
                    &&& after.state_position == view.state_position
                    &&& after.commands == view.commands.skip(1)
                    &&& after.commands.len() > 0
                    &&& after.state() == State::Begin
                    &&& actions == seq![BusAction::GenerateStart]
                }
                ||| {
                    &&& after.states[view.state_position] == State::Finished
                    &&& after.commands == view.commands.skip(view.head_len())
                    &&& after.state_position == view.next_position()
                    &&& actions.len() == 2
                    &&& actions[0] != BusAction::GenerateStart
                    &&& actions[1] == chain(after.commands.len() > 0)
                    &&& after.commands.len() > 0 ==> after.state() == State::Begin
                }
            }
        }),
{
    let (after, actions) = view.command_ended();
    if view.head() is Write && view.head_len() == 3 {
        assert(view.commands.len() == 3);
    } else {
        if view.commands.len() == 4 {
            assert(view.commands.take(2)[1] is NoOp);
        }
    }
}

proof fn lemma_event_starts(view: TransactionView, reason: I2CEventInterrupt, value: u8)
    requires
        view.inv(),
        view.commands.len() > 0,
        view.on_event(reason, value).1.contains(BusAction::GenerateStart),
    ensures
        ({
            let (after, actions) = view.on_event(reason, value);
            {
                ||| {
                    &&& view.head() is Write
                    &&& after.state_position == view.state_position
                    &&& after.commands == view.commands.skip(1)
                    &&& after.commands.len() > 0
                    &&& after.state() == State::Begin
                }
                ||| {
                    &&& after.states[view.state_position].is_terminal()
                    &&& after.commands == view.commands.skip(view.head_len())
                    &&& after.state_position == view.next_position()
                    &&& after.commands.len() > 0
                    &&& after.state() == State::Begin
                }
            }
        }),
{
    let (after, actions) = view.on_event(reason, value);
    let i = choose|i: int| 0 <= i < actions.len() && actions[i] == BusAction::GenerateStart;
    match reason {
        I2CEventInterrupt::StartBitSent => {},
        I2CEventInterrupt::AddressSent => {
            let entered = view.with_state(State::AddressSend);
            if view.head() is Write {
                if !(entered.buffer_position < entered.head().buffer().len()) {
                    lemma_command_ended_starts(entered);
                }
            }
        },
        I2CEventInterrupt::DataByteTransferFinished => {
            if view.head() is Read {
                let phase = if view.state() == State::AddressSend {
                    State::ByteProcessing
                } else {
                    view.state()
                };
                let entered = view.with_state(phase);
                if view.head().buffer().len() == 0 {
                    lemma_command_ended_starts(entered);
                } else {
                    lemma_captured_keeps_wf(entered, value);
                    let stored = entered.captured(value);
                    if phase == State::LastByte {
                        lemma_command_ended_starts(stored);
                        assert(stored.commands.skip(stored.head_len()) =~= view.commands.skip(
                            view.head_len(),
                        ));
                    }
                }
            } else {
                let entered = view.with_state(State::ByteProcessing);
                if !(entered.buffer_position < entered.head().buffer().len()) {
                    lemma_command_ended_starts(entered);
                }
            }
        },
        I2CEventInterrupt::Unknown => {},
    }
}

proof fn lemma_fault_starts(view: TransactionView, status: StatusFlags)
    requires
        view.inv(),
        view.on_error(status).1.contains(BusAction::GenerateStart),
    ensures
        ({
            let (after, actions) = view.on_error(status);
            &&& view.commands.len() > 0
            &&& after.states[view.state_position].is_terminal()
            &&& after.commands == view.commands.skip(view.head_len())
            &&& after.state_position == view.next_position()
            &&& after.commands.len() > 0
            &&& after.state() == State::Begin
        }),
{
    let (after, actions) = view.on_error(status);
    let i = choose|i: int| 0 <= i < actions.len() && actions[i] == BusAction::GenerateStart;
    match fault_of(status) {
        Some(fault) => {
            let marked = view.with_state(State::Fail(refined(fault, view.state())));
            if view.commands.len() > 0 {
                lemma_retired_keeps_inv(marked);
                if view.commands.len() == 4 {
                    assert(view.commands.take(2)[1] is NoOp);
                }
            }
        },
        None => {},
    }
}

/// A poll answers nothing for as long as the transaction is not over. From
/// then on it answers done for `Finished`, and the fault for `Fail`.
pub proof fn law_poll_follows_state(state: State)
    ensures
        poll_of(state) is Pending <==> !state.is_terminal(),
        state == State::Finished ==> poll_of(state) == Poll::Ready(Ok::<(), Error>(())),
        forall|fault: Error| state == State::Fail(fault) ==> poll_of(state) == Poll::Ready(
            Err::<(), Error>(fault),
        ),
{
}

/// A verdict stays, and every poll of its slot gives the same answer,
/// whatever happens to the engine, with two exceptions: a request that is
/// given the slot, and a fault reported while the bus is idle, which is
/// recorded in the idle slot.
pub proof fn law_verdict_stays(view: TransactionView, step: Step, slot: int)
    requires
        view.inv(),
        view.admits(step),
        0 <= slot < MAX_COMMANDS,
        view.states[slot].is_terminal(),
        !(step is Request && view.has_room(step->Request_0.len() as int) && slot
            == view.target_position()),
        !(step is Fault && fault_of(step->Fault_0) is Some && view.commands.len() == 0 && slot
            == view.state_position),
    ensures
        view.after(step).0.states[slot] == view.states[slot],
        poll_of(view.after(step).0.states[slot]) == poll_of(view.states[slot]),
{
    match step {
        Step::Request(commands) => {},
        Step::Event(reason, value) => {
            lemma_event_touches_one_slot(view, reason, value);
        },
        Step::Fault(status) => {
            lemma_fault_touches_one_slot(view, status);
        },
    }
}

/// An event changes the state of no slot but the current one.
pub proof fn lemma_event_touches_one_slot(
    view: TransactionView,
    reason: I2CEventInterrupt,
    value: u8,
)
    requires
        view.wf(),
        view.commands.len() > 0,
    ensures
        forall|slot: int|
            0 <= slot < MAX_COMMANDS && slot != view.state_position ==> view.on_event(
                reason,
                value,
            ).0.states[slot] == view.states[slot],
{
}

/// An error interrupt changes the state of no slot but the current one.
pub proof fn lemma_fault_touches_one_slot(view: TransactionView, status: StatusFlags)
    requires
        view.wf(),
    ensures
        forall|slot: int|
            0 <= slot < MAX_COMMANDS && slot != view.state_position ==> view.on_error(
                status,
            ).0.states[slot] == view.states[slot],
{
}

/// After a fault, what is left of the transaction in progress has left the
/// queue, up to and including its end marker, and the queue begins with the
/// transaction that waited behind it, if there is one. The fault is the
/// verdict of the slot, and the slot after is the current one. The last action
/// starts the transaction that waited, or lets the bus go idle.
pub proof fn law_fault_removes_transaction(view: TransactionView, status: StatusFlags)
    requires
        view.inv(),
        view.commands.len() > 0,
        fault_of(status) is Some,
    ensures
        ({
            let (after, actions) = view.on_error(status);
            let length = view.head_len();
            &&& is_group(view.commands.take(length))
            &&& after.commands == view.commands.skip(length)
            &&& after.commands.len() == 0 || is_group(after.commands)
            &&& after.states[view.state_position] == State::Fail(
                refined(fault_of(status)->Some_0, view.state()),
            )
            &&& after.state_position == view.next_position()
            &&& actions.last() == chain(after.commands.len() > 0)
            &&& after.commands.len() > 0 ==> after.state() == State::Begin
        }),
{
    let fault = fault_of(status)->Some_0;
    let marked = view.with_state(State::Fail(refined(fault, view.state())));
    lemma_retired_keeps_inv(marked);
    if view.commands.len() == 4 {
        assert(view.commands.take(2)[1] is NoOp);
        assert(view.commands.skip(2)[0].is_data());
        assert(view.commands.skip(2)[1] is NoOp);
    } else {
        assert(view.commands.take(view.head_len()) =~= view.commands);
    }
}

/// The status flags never report a bus error, nor a full queue.
pub proof fn law_bus_error_never_reported(status: StatusFlags)
    ensures
        fault_of(status) != Some(Error::Bus),
        fault_of(status) != Some(Error::Busy),
{
}

/// Where a read stands after some of its bytes have arrived: the bytes are at
/// the beginning of its buffer, in their order, and the rest of the buffer is
/// as it was; with one byte left to come the read waits in `LastByte`.
pub open spec fn reading(view: TransactionView, bytes: Seq<u8>) -> TransactionView {
    let buffer = view.head().buffer();
    let arrived = bytes.len() as int;
    TransactionView {
        commands: view.commands.update(
            0,
            CommandView::Read(view.head().address(), bytes + buffer.skip(arrived)),
        ),
        buffer_position: arrived,
        states: view.states.update(
            view.state_position,
            if arrived == 0 {
                State::AddressSend
            } else if arrived + 1 == buffer.len() {
                State::LastByte
            } else {
                State::ByteProcessing
            },
        ),
        ..view
    }
}

/// A read that has been addressed takes the bytes in as they arrive, all but
/// the last.
pub proof fn lemma_read_in_progress(view: TransactionView, bytes: Seq<u8>)
    requires
        view.inv(),
        view.commands.len() > 0,
        view.head() is Read,
        view.state() == State::AddressSend,
        view.buffer_position == 0,
        bytes.len() < view.head().buffer().len(),
    ensures
        view.after_bytes(bytes) == reading(view, bytes),
        reading(view, bytes).inv(),
    decreases bytes.len(),
{
    let buffer = view.head().buffer();
    if bytes.len() == 0 {
        assert(bytes + buffer.skip(0) =~= buffer);
        assert(reading(view, bytes).commands =~= view.commands);
        assert(reading(view, bytes).states =~= view.states);
    } else {
        let before = bytes.drop_last();
        lemma_read_in_progress(view, before);
        let at = reading(view, before);
        let arrived = before.len() as int;
        assert(at.head().buffer() == before + buffer.skip(arrived));
        assert(at.head().buffer().len() == buffer.len());
        let phase = if at.state() == State::AddressSend {
            State::ByteProcessing
        } else {
            at.state()
        };
        let entered = at.with_state(phase);
        lemma_captured_keeps_wf(entered, bytes.last());
        let stored = entered.captured(bytes.last());
        assert((before + buffer.skip(arrived)).update(arrived, bytes.last()) =~= bytes
            + buffer.skip(arrived + 1));
        let after = at.on_event(I2CEventInterrupt::DataByteTransferFinished, bytes.last()).0;
        assert(after.commands =~= reading(view, bytes).commands);
        assert(after.states =~= reading(view, bytes).states);
        assert(after == reading(view, bytes));
        lemma_event_keeps_inv(at, I2CEventInterrupt::DataByteTransferFinished, bytes.last());
    }
}

/// A read of two bytes or more that has been addressed is over with the
/// byte-transferred event that brings its last byte, and not before. It ends
/// as `Finished`; the bytes are handed back in the order in which they
/// arrived; its commands have left the queue, and the slot after is the
/// current one.
pub proof fn law_read_delivers_bytes_in_order(view: TransactionView, bytes: Seq<u8>)
    requires
        view.inv(),
        view.commands.len() > 0,
        view.head() is Read,
        view.state() == State::AddressSend,
        view.buffer_position == 0,
        bytes.len() == view.head().buffer().len(),
        bytes.len() >= 2,
    ensures
        view.after_bytes(bytes).states[view.state_position] == State::Finished,
        view.after_bytes(bytes).received[view.state_position] == bytes,
        view.after_bytes(bytes).commands == view.commands.skip(2),
        view.after_bytes(bytes).state_position == view.next_position(),
        forall|count: int|
            0 <= count < bytes.len() ==> !(#[trigger] view.after_bytes(
                bytes.take(count),
            )).states[view.state_position].is_terminal(),
{
    let buffer = view.head().buffer();
    let before = bytes.drop_last();
    lemma_read_in_progress(view, before);
    let at = reading(view, before);
    let arrived = before.len() as int;
    assert(at.state() == State::LastByte);
    let entered = at.with_state(State::LastByte);
    assert(entered.states =~= at.states);
    lemma_captured_keeps_wf(entered, bytes.last());
    let stored = entered.captured(bytes.last());
    assert((before + buffer.skip(arrived)).update(arrived, bytes.last()) =~= bytes);
    assert(stored.head() == CommandView::Read(view.head().address(), bytes));
    assert(view.head_len() == 2) by {
        if view.commands.len() == 4 {
            assert(view.commands.take(2)[1] is NoOp);
        }
    }
    assert(stored.commands.skip(2) =~= view.commands.skip(2));
    assert forall|count: int| 0 <= count < bytes.len() implies !(#[trigger] view.after_bytes(
        bytes.take(count),
    )).states[view.state_position].is_terminal() by {
        lemma_read_in_progress(view, bytes.take(count));
    }
}

/// Where a write stands after its address was acknowledged and some bytes
/// were transferred: one more byte is on its way.
pub open spec fn writing(view: TransactionView, transferred: int) -> TransactionView {
    TransactionView {
        buffer_position: transferred + 1,
        states: view.states.update(
            view.state_position,
            if transferred == 0 {
                State::AddressSend
            } else {
                State::ByteProcessing
            },
        ),
        ..view
    }
}

/// A write sends its bytes in their order: the first when its address is
/// acknowledged, and the next with each byte transferred. With nothing left
/// it ends.
pub proof fn law_write_sends_bytes_in_order(view: TransactionView, transferred: int, value: u8)
    requires
        view.inv(),
        view.commands.len() > 0,
        view.head() is Write,
        view.buffer_position == 0,
        0 <= transferred < view.head().buffer().len(),
    ensures
        view.on_event(I2CEventInterrupt::AddressSent, value) == (
            writing(view, 0),
            seq![BusAction::ClearAddressFlag, BusAction::SendByte(view.head().buffer()[0])],
        ),
        writing(view, transferred).inv(),
        transferred + 1 < view.head().buffer().len() ==> writing(view, transferred).on_event(
            I2CEventInterrupt::DataByteTransferFinished,
            value,
        ) == (
            writing(view, transferred + 1),
            seq![BusAction::SendByte(view.head().buffer()[transferred + 1])],
        ),
        transferred + 1 == view.head().buffer().len() ==> writing(view, transferred).on_event(
            I2CEventInterrupt::DataByteTransferFinished,
            value,
        ) == writing(view, transferred).with_state(State::ByteProcessing).command_ended(),
{
    let entered = view.with_state(State::AddressSend);
    assert(seq![BusAction::ClearAddressFlag] + seq![
        BusAction::SendByte(view.head().buffer()[0]),
    ] =~= seq![BusAction::ClearAddressFlag, BusAction::SendByte(view.head().buffer()[0])]);
    let at = writing(view, transferred);
    if transferred + 1 < view.head().buffer().len() {
        assert(at.with_state(State::ByteProcessing).states =~= writing(
            view,
            transferred + 1,
        ).states);
    }
}

/// The command at the front of the queue is never an end marker: what is on
/// the wire always moves data.
pub proof fn law_marker_never_at_front(view: TransactionView)
    requires
        view.wf(),
        view.commands.len() > 0,
    ensures
        view.head().is_data(),
        view.commands.last() is NoOp,
{
    if view.commands.len() == 4 {
        assert(view.commands.take(2)[0].is_data());
        assert(view.commands.skip(2)[1] is NoOp);
    }
}

/// First in, first out. A request leaves what is queued in its place and
/// adds at the back. An interrupt takes nothing out of the queue but from its
/// front: the command on the wire stays, with at most its buffer changed, or
/// it leaves alone, or it leaves with what follows it in its transaction.
pub proof fn law_first_in_first_out(view: TransactionView, step: Step)
    requires
        view.inv(),
        view.admits(step),
    ensures
        step is Request ==> view.after(step).0.commands.take(view.commands.len() as int)
            == view.commands,
        !(step is Request) && view.commands.len() > 0 ==> {
            ||| {
                &&& view.after(step).0.commands.len() == view.commands.len()
                &&& view.after(step).0.commands.skip(1) == view.commands.skip(1)
                &&& view.after(step).0.head().address() == view.head().address()
                &&& view.after(step).0.head() is Read <==> view.head() is Read
            }
            ||| view.after(step).0.commands == view.commands.skip(1)
            ||| view.after(step).0.commands == view.commands.skip(view.head_len())
        },
        !(step is Request) && view.commands.len() == 0 ==> view.after(step).0.commands
            == view.commands,
{
    let after = view.after(step).0;
    match step {
        Step::Request(commands) => {
            assert(after.commands.take(view.commands.len() as int) =~= view.commands);
        },
        Step::Event(reason, value) => {
            match reason {
                I2CEventInterrupt::StartBitSent => {},
                I2CEventInterrupt::AddressSent => {
                    let entered = view.with_state(State::AddressSend);
                    if view.head() is Write && !(entered.buffer_position
                        < entered.head().buffer().len()) {
                        lemma_command_ended_starts(entered);
                    }
                },
                I2CEventInterrupt::DataByteTransferFinished => {
                    if view.head() is Read {
                        let phase = if view.state() == State::AddressSend {
                            State::ByteProcessing
                        } else {
                            view.state()
                        };
                        let entered = view.with_state(phase);
                        if view.head().buffer().len() == 0 {
                            lemma_command_ended_starts(entered);
                        } else {
                            lemma_captured_keeps_wf(entered, value);
                            let stored = entered.captured(value);
                            assert(stored.commands.skip(1) =~= view.commands.skip(1));
                            if phase == State::LastByte {
                                lemma_command_ended_starts(stored);
                                assert(stored.commands.skip(stored.head_len())
                                    =~= view.commands.skip(view.head_len()));
                            }
                        }
                    } else {
                        let entered = view.with_state(State::ByteProcessing);
                        if !(entered.buffer_position < entered.head().buffer().len()) {
                            lemma_command_ended_starts(entered);
                        }
                    }
                },
                I2CEventInterrupt::Unknown => {},
            }
        },
        Step::Fault(status) => {},
    }
}

} // verus!
