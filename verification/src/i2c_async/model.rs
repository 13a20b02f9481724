//! The engine as mathematics: what the queue and the slots hold, and what
//! each step does to them. The executable code is proved against this model,
//! and the laws of the engine are proved of the model.

use vstd::prelude::*;

use super::states::State;
use super::transaction::CommandView;
use super::{BusAction, Error, ErrorFlag, I2CEventInterrupt, NoAcknowledgeSource, StatusFlags};

verus! {

/// The number of slots, and the size of the ring behind the queue.
pub const MAX_COMMANDS: usize = 5;

/// The number of commands that the queue holds at most: the ring keeps one
/// place free.
pub const QUEUE_CAPACITY: usize = 4;

/// What a caller may hand over as one transaction: one or two data commands,
/// of which only the last may be a read.
pub open spec fn acceptable(commands: Seq<CommandView>) -> bool {
    &&& 1 <= commands.len() <= 2
    &&& forall|i: int| 0 <= i < commands.len() ==> (#[trigger] commands[i]).is_data()
    &&& commands.len() == 2 ==> commands[0] is Write
}

/// One transaction as it stands in the queue: its data commands, then the end
/// marker.
pub open spec fn is_group(commands: Seq<CommandView>) -> bool {
    ||| commands.len() == 2 && commands[0].is_data() && commands[1] is NoOp
    ||| commands.len() == 3 && commands[0] is Write && commands[1].is_data() && commands[2] is NoOp
}

/// The queue holds whole transactions, the one in progress first.
pub open spec fn well_shaped(commands: Seq<CommandView>) -> bool {
    ||| commands.len() == 0
    ||| is_group(commands)
    ||| commands.len() == 4 && is_group(commands.take(2)) && is_group(commands.skip(2))
}

/// The fault that a set of status flags reports, by priority. A bus error
/// alone reports none.
pub open spec fn fault_of(status: StatusFlags) -> Option<Error> {
    if status.timeout {
        Some(Error::Timeout)
    } else if status.pec_error {
        Some(Error::Crc)
    } else if status.overrun {
        Some(Error::Overrun)
    } else if status.acknowledge_failure {
        Some(Error::NoAcknowledge(NoAcknowledgeSource::Unknown))
    } else if status.arbitration_lost {
        Some(Error::ArbitrationLoss)
    } else {
        None
    }
}

/// The one flag that is cleared: the flag of the fault reported, or the bus
/// error flag where no fault is reported.
pub open spec fn flag_to_clear(status: StatusFlags) -> Option<ErrorFlag> {
    if status.timeout {
        Some(ErrorFlag::Timeout)
    } else if status.pec_error {
        Some(ErrorFlag::PecError)
    } else if status.overrun {
        Some(ErrorFlag::Overrun)
    } else if status.acknowledge_failure {
        Some(ErrorFlag::AcknowledgeFailure)
    } else if status.arbitration_lost {
        Some(ErrorFlag::ArbitrationLost)
    } else if status.bus_error {
        Some(ErrorFlag::BusError)
    } else {
        None
    }
}

/// The cause of an event interrupt: of several flags the earliest phase wins.
pub open spec fn reason_of(status: StatusFlags) -> I2CEventInterrupt {
    if status.start_bit {
        I2CEventInterrupt::StartBitSent
    } else if status.address_sent {
        I2CEventInterrupt::AddressSent
    } else if status.byte_transfer_finished {
        I2CEventInterrupt::DataByteTransferFinished
    } else {
        I2CEventInterrupt::Unknown
    }
}

/// A fault as it is recorded: a missing acknowledgement is placed in the
/// phase that the transaction was in.
pub open spec fn refined(fault: Error, phase: State) -> Error {
    match phase {
        State::StartGenerated => fault.spec_nack_addr(),
        State::AddressSend | State::ByteProcessing | State::LastByte => fault.spec_nack_data(),
        _ => fault,
    }
}

/// The action that follows the end of a transaction: the next one starts, or
/// the bus goes idle.
pub open spec fn chain(more: bool) -> BusAction {
    if more {
        BusAction::GenerateStart
    } else {
        BusAction::MaskInterrupts
    }
}

/// The state of the engine.
pub ghost struct TransactionView {
    /// The queue, front first. The front command is the one on the wire.
    pub commands: Seq<CommandView>,
    /// How many bytes of the front command's buffer are done.
    pub buffer_position: int,
    /// The state of each slot.
    pub states: Seq<State>,
    /// The slot of the transaction at the front of the queue, or, with an
    /// empty queue, of the next one to come.
    pub state_position: int,
    /// For each slot, the buffer of the read that last left the queue there.
    pub received: Seq<Seq<u8>>,
}

impl TransactionView {
    /// The engine at boot.
    pub open spec fn initial() -> TransactionView {
        TransactionView {
            commands: Seq::empty(),
            buffer_position: 0,
            states: Seq::new(MAX_COMMANDS as nat, |i: int| State::Begin),
            state_position: 0,
            received: Seq::new(MAX_COMMANDS as nat, |i: int| Seq::<u8>::empty()),
        }
    }

    /// The structure that every operation keeps.
    pub open spec fn wf(self) -> bool {
        &&& self.states.len() == MAX_COMMANDS
        &&& self.received.len() == MAX_COMMANDS
        &&& 0 <= self.state_position < MAX_COMMANDS
        &&& self.commands.len() <= QUEUE_CAPACITY
        &&& well_shaped(self.commands)
        &&& 0 <= self.buffer_position
        &&& self.commands.len() == 0 ==> self.buffer_position == 0
        &&& self.commands.len() > 0 ==> self.buffer_position <= self.commands[0].buffer().len()
    }

    /// What holds between any two steps of the engine: the structure, a
    /// transaction in progress has no verdict yet, and one that waits behind
    /// it is at its beginning, in the slot after.
    pub open spec fn inv(self) -> bool {
        &&& self.wf()
        &&& self.commands.len() > 0 ==> !self.states[self.state_position].is_terminal()
        &&& self.commands.len() == 4 ==> self.states[self.next_position()] == State::Begin
    }

    pub open spec fn head(self) -> CommandView {
        self.commands[0]
    }

    pub open spec fn state(self) -> State {
        self.states[self.state_position]
    }

    /// The slot after the current one, round the ring of slots.
    pub open spec fn next_position(self) -> int {
        (self.state_position + 1) % (MAX_COMMANDS as int)
    }

    /// The number of commands that the transaction at the front still has in
    /// the queue, its end marker included.
    pub open spec fn head_len(self) -> int {
        if self.commands[1] is NoOp {
            2
        } else {
            3
        }
    }

    /// Is there room for `count` data commands and their end marker?
    pub open spec fn has_room(self, count: int) -> bool {
        self.commands.len() + count + 1 <= QUEUE_CAPACITY
    }

    /// The slot that the next transaction gets: the current one if the bus is
    /// idle, else the one after.
    pub open spec fn target_position(self) -> int {
        if self.commands.len() == 0 {
            self.state_position
        } else {
            self.next_position()
        }
    }

    /// The engine after a transaction of these commands was queued.
    pub open spec fn enqueued(self, commands: Seq<CommandView>) -> TransactionView {
        TransactionView {
            commands: self.commands + commands.push(CommandView::NoOp),
            states: self.states.update(self.target_position(), State::Begin),
            received: self.received.update(self.target_position(), Seq::empty()),
            ..self
        }
    }

    pub open spec fn with_state(self, state: State) -> TransactionView {
        TransactionView { states: self.states.update(self.state_position, state), ..self }
    }

    pub open spec fn with_position(self, buffer_position: int) -> TransactionView {
        TransactionView { buffer_position, ..self }
    }

    /// The engine after a byte arrived for the read at the front: it is stored
    /// unless the buffer is full.
    pub open spec fn captured(self, value: u8) -> TransactionView {
        if self.buffer_position < self.head().buffer().len() {
            TransactionView {
                commands: self.commands.update(
                    0,
                    self.head().with_byte(self.buffer_position, value),
                ),
                buffer_position: self.buffer_position + 1,
                ..self
            }
        } else {
            self
        }
    }

    /// The engine after the front command left the queue and the next command
    /// of the same transaction took its place.
    pub open spec fn advanced(self) -> TransactionView {
        TransactionView { commands: self.commands.skip(1), buffer_position: 0, ..self }
    }

    /// The engine after the transaction at the front left the queue: all its
    /// commands are gone, end marker included; its slot has its verdict, which
    /// is the fault recorded or else `Finished`; the buffer of its read, if it
    /// has one, is kept for the caller; the next slot is the current one.
    pub open spec fn retired(self) -> TransactionView {
        let last = self.commands[self.head_len() - 2];
        TransactionView {
            commands: self.commands.skip(self.head_len()),
            buffer_position: 0,
            states: self.states.update(self.state_position, self.state().settled()),
            state_position: self.next_position(),
            received: if last is Read {
                self.received.update(self.state_position, last.buffer())
            } else {
                self.received
            },
        }
    }

    /// One command leaves the queue. The result says whether the transaction
    /// goes on with another command.
    pub open spec fn next_command(self) -> (TransactionView, bool) {
        if self.commands.len() == 0 {
            (self, false)
        } else if self.head_len() == 2 {
            (self.retired(), false)
        } else {
            (self.advanced(), true)
        }
    }

    /// The transaction at the front leaves the queue, if there is one.
    pub open spec fn skipped(self) -> TransactionView {
        if self.commands.len() == 0 {
            self
        } else {
            self.retired()
        }
    }

    /// The front command is done. A write that is followed by another command
    /// of its transaction hands over with a repeated start; otherwise the
    /// transaction is finished, and the next one starts or the bus goes idle.
    pub open spec fn command_ended(self) -> (TransactionView, Seq<BusAction>) {
        if self.head() is Write && self.head_len() == 3 {
            (self.advanced().with_state(State::Begin), seq![BusAction::GenerateStart])
        } else {
            let after = self.with_state(State::Finished).retired();
            let stop = if self.head() is Read {
                BusAction::AwaitStop
            } else {
                BusAction::GenerateStop
            };
            (after, seq![stop, chain(after.commands.len() > 0)])
        }
    }

    /// The write at the front sends its next byte, or ends.
    pub open spec fn write_step(self) -> (TransactionView, Seq<BusAction>) {
        if self.buffer_position < self.head().buffer().len() {
            (
                self.with_position(self.buffer_position + 1),
                seq![BusAction::SendByte(self.head().buffer()[self.buffer_position])],
            )
        } else {
            self.command_ended()
        }
    }

    /// A byte arrived for the read at the front. A read without a buffer ends
    /// at once and keeps nothing. Otherwise the byte is stored; with one byte
    /// left to come the stop is requested in advance, and the byte after that
    /// ends the read. A read of a single byte never has one byte left to
    /// come: it keeps its byte and goes on waiting.
    pub open spec fn read_step(self, value: u8) -> (TransactionView, Seq<BusAction>) {
        let phase = if self.state() == State::AddressSend {
            State::ByteProcessing
        } else {
            self.state()
        };
        let entered = self.with_state(phase);
        if self.head().buffer().len() == 0 {
            let (after, actions) = entered.command_ended();
            (after, seq![BusAction::DisableAckAndStop] + actions)
        } else {
            let stored = entered.captured(value);
            if phase == State::LastByte {
                stored.command_ended()
            } else if stored.buffer_position + 1 == self.head().buffer().len() {
                (stored.with_state(State::LastByte), seq![BusAction::DisableAckAndStop])
            } else {
                (stored, Seq::empty())
            }
        }
    }

    /// The reaction to an event interrupt. `value` is the content of the data
    /// register, which counts only when a byte arrived for a read.
    pub open spec fn on_event(self, reason: I2CEventInterrupt, value: u8) -> (
        TransactionView,
        Seq<BusAction>,
    ) {
        match reason {
            I2CEventInterrupt::StartBitSent => (
                self.with_state(State::StartGenerated),
                seq![
                    BusAction::SendAddress {
                        address: self.head().address(),
                        read: self.head() is Read,
                    },
                ],
            ),
            I2CEventInterrupt::AddressSent => {
                let entered = self.with_state(State::AddressSend);
                if self.head() is Write {
                    let (after, actions) = entered.write_step();
                    (after, seq![BusAction::ClearAddressFlag] + actions)
                } else {
                    (entered, seq![BusAction::ClearAddressFlag])
                }
            },
            I2CEventInterrupt::DataByteTransferFinished => {
                if self.head() is Read {
                    self.read_step(value)
                } else {
                    self.with_state(State::ByteProcessing).write_step()
                }
            },
            I2CEventInterrupt::Unknown => (self, Seq::empty()),
        }
    }

    /// The reaction to an error interrupt. One flag is cleared. A fault is
    /// recorded in the current slot, the transaction at the front leaves the
    /// queue, and the next one starts or the bus goes idle.
    pub open spec fn on_error(self, status: StatusFlags) -> (TransactionView, Seq<BusAction>) {
        let clear = match flag_to_clear(status) {
            Some(flag) => seq![BusAction::ClearErrorFlag(flag)],
            None => Seq::empty(),
        };
        match fault_of(status) {
            Some(fault) => {
                let after = self.with_state(State::Fail(refined(fault, self.state()))).skipped();
                (after, clear.push(chain(after.commands.len() > 0)))
            },
            None => (self, clear),
        }
    }

    /// The reaction to a request: with room, the transaction is queued, and
    /// an idle bus is started; without, nothing changes.
    pub open spec fn on_request(self, commands: Seq<CommandView>) -> (
        TransactionView,
        Seq<BusAction>,
    ) {
        if self.has_room(commands.len() as int) {
            (
                self.enqueued(commands),
                if self.commands.len() == 0 {
                    seq![BusAction::EnableInterrupts, BusAction::GenerateStart]
                } else {
                    Seq::empty()
                },
            )
        } else {
            (self, Seq::empty())
        }
    }
}

/// One thing that can happen to the engine.
pub ghost enum Step {
    /// A caller asks for a transaction of these commands.
    Request(Seq<CommandView>),
    /// The event interrupt fires, with this cause and this content of the
    /// data register.
    Event(I2CEventInterrupt, u8),
    /// The error interrupt fires, with these status flags.
    Fault(StatusFlags),
}

impl TransactionView {
    /// Can this happen now? A request has to be a transaction; an event needs
    /// a command on the wire and a known cause.
    pub open spec fn admits(self, step: Step) -> bool {
        match step {
            Step::Request(commands) => acceptable(commands),
            Step::Event(reason, _) => self.commands.len() > 0 && reason
                != I2CEventInterrupt::Unknown,
            Step::Fault(_) => true,
        }
    }

    /// The engine after the step, and the actions that the step asks for.
    pub open spec fn after(self, step: Step) -> (TransactionView, Seq<BusAction>) {
        match step {
            Step::Request(commands) => self.on_request(commands),
            Step::Event(reason, value) => self.on_event(reason, value),
            Step::Fault(status) => self.on_error(status),
        }
    }

    /// The engine after the steps, one after the other.
    pub open spec fn after_all(self, steps: Seq<Step>) -> TransactionView
        decreases steps.len(),
    {
        if steps.len() == 0 {
            self
        } else {
            self.after_all(steps.drop_last()).after(steps.last()).0
        }
    }

    /// The engine after one byte-transferred event for each of the bytes, in
    /// their order.
    pub open spec fn after_bytes(self, bytes: Seq<u8>) -> TransactionView
        decreases bytes.len(),
    {
        if bytes.len() == 0 {
            self
        } else {
            self.after_bytes(bytes.drop_last()).on_event(
                I2CEventInterrupt::DataByteTransferFinished,
                bytes.last(),
            ).0
        }
    }

    /// Can the steps happen one after the other, from here?
    pub open spec fn admits_all(self, steps: Seq<Step>) -> bool
        decreases steps.len(),
    {
        steps.len() == 0 || (self.admits_all(steps.drop_last()) && self.after_all(
            steps.drop_last(),
        ).admits(steps.last()))
    }
}

} // verus!
