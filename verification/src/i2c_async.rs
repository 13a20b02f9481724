//! The non-blocking bus engine: a bounded queue of commands, a protocol state
//! machine advanced by hardware events, and handles to poll for the outcome.

use vstd::prelude::*;

use self::futures::I2COperationFuture;
use self::laws::{lemma_error_keeps_inv, lemma_event_keeps_inv};
use self::model::{fault_of, flag_to_clear, reason_of, refined, TransactionView};
use self::states::State;
use self::transaction::{command_views, Command, CommandView, Transaction};

pub mod futures;
pub mod laws;
pub mod model;
pub mod queue;
pub mod states;
pub mod timing;
pub mod transaction;

verus! {

/// Which phase a missing acknowledgement belongs to.
#[derive(Debug, Clone, Copy, PartialEq, Eq, Structural)]
pub enum NoAcknowledgeSource {
    /// The device did not answer to its address.
    Address,
    /// The device refused a data byte.
    Data,
    /// The phase was not determined.
    Unknown,
}

/// The faults of the bus, and `Busy` for a full queue.
#[derive(Debug, Clone, Copy, PartialEq, Eq, Structural)]
#[non_exhaustive]
pub enum Error {
    Overrun,
    NoAcknowledge(NoAcknowledgeSource),
    Timeout,
    /// Never reported: the controller raises it spuriously.
    Bus,
    Crc,
    ArbitrationLoss,
    /// The queue has no room for the transaction. Nothing was queued.
    Busy,
}

impl Error {
    /// A missing acknowledgement of unknown phase, placed in the address phase.
    pub open spec fn spec_nack_addr(self) -> Error {
        if self == Error::NoAcknowledge(NoAcknowledgeSource::Unknown) {
            Error::NoAcknowledge(NoAcknowledgeSource::Address)
        } else {
            self
        }
    }

    /// A missing acknowledgement of unknown phase, placed in the data phase.
    pub open spec fn spec_nack_data(self) -> Error {
        if self == Error::NoAcknowledge(NoAcknowledgeSource::Unknown) {
            Error::NoAcknowledge(NoAcknowledgeSource::Data)
        } else {
            self
        }
    }

    #[verifier::when_used_as_spec(spec_nack_addr)]
    pub fn nack_addr(self) -> (refined: Error)
        ensures
            refined == self.spec_nack_addr(),
    {
        match self {
            Error::NoAcknowledge(NoAcknowledgeSource::Unknown) => Error::NoAcknowledge(
                NoAcknowledgeSource::Address,
            ),
            e => e,
        }
    }

    #[verifier::when_used_as_spec(spec_nack_data)]
    pub fn nack_data(self) -> (refined: Error)
        ensures
            refined == self.spec_nack_data(),
    {
        match self {
            Error::NoAcknowledge(NoAcknowledgeSource::Unknown) => Error::NoAcknowledge(
                NoAcknowledgeSource::Data,
            ),
            e => e,
        }
    }
}

/// Why the event interrupt fired.
#[derive(Debug, Clone, Copy, PartialEq, Eq, Structural)]
pub enum I2CEventInterrupt {
    StartBitSent,
    AddressSent,
    DataByteTransferFinished,
    /// None of the three: the engine has no reaction to it.
    Unknown,
}

/// A snapshot of the controller's status flags, taken by whoever owns the
/// registers.
#[derive(Debug, Clone, Copy, PartialEq, Eq, Structural)]
pub struct StatusFlags {
    pub start_bit: bool,
    pub address_sent: bool,
    pub byte_transfer_finished: bool,
    pub timeout: bool,
    pub pec_error: bool,
    pub overrun: bool,
    pub acknowledge_failure: bool,
    pub arbitration_lost: bool,
    pub bus_error: bool,
}

/// One of the status flags that report a fault.
#[derive(Debug, Clone, Copy, PartialEq, Eq, Structural)]
pub enum ErrorFlag {
    Timeout,
    PecError,
    Overrun,
    AcknowledgeFailure,
    ArbitrationLost,
    BusError,
}

/// What the engine asks of the controller. The owner of the registers carries
/// the actions out, in the order given.
#[derive(Debug, Clone, Copy, PartialEq, Eq, Structural)]
pub enum BusAction {
    /// Let the controller raise event and error interrupts, and unmask both.
    EnableInterrupts,
    /// Mask both interrupts: the bus is idle.
    MaskInterrupts,
    /// Request a start condition, with acknowledgement of received bytes on.
    GenerateStart,
    /// Request a stop condition and wait until it is on the wire.
    GenerateStop,
    /// Wait until a stop condition requested earlier is on the wire.
    AwaitStop,
    /// Stop acknowledging and request a stop condition after the byte that is
    /// on its way.
    DisableAckAndStop,
    /// Put the address and the direction bit into the data register.
    SendAddress { address: u8, read: bool },
    /// Reading the second status register ends the address phase.
    ClearAddressFlag,
    /// Put a byte into the data register.
    SendByte(u8),
    /// Clear one fault flag.
    ClearErrorFlag(ErrorFlag),
}

/// The data register's content for the address phase: the seven address bits,
/// then the direction bit, which is set for a read.
pub fn address_frame(address: u8, read: bool) -> (frame: u32)
    ensures
        frame == 2 * address + if read { 1int } else { 0int },
{
    let direction: u32 = if read { 1 } else { 0 };
    let address: u32 = address.into();
    address * 2 + direction
}

/// The bus controller without its registers: it decides, and whoever owns
/// the registers carries out the actions that it returns.
pub struct I2c {
    transaction: Transaction,
}

impl View for I2c {
    type V = TransactionView;

    closed spec fn view(&self) -> TransactionView {
        self.transaction@
    }
}

impl I2c {
    /// What holds of the engine between any two calls.
    pub open spec fn inv(&self) -> bool {
        self@.inv()
    }

    /// A controller with an idle bus.
    pub fn new() -> (i2c: I2c)
        ensures
            i2c@ == TransactionView::initial(),
            i2c.inv(),
    {
        I2c { transaction: Transaction::new() }
    }

    /// Gives up the controller for the queue and the slots that it held.
    pub fn release(self) -> (transaction: Transaction)
        ensures
            transaction@ == self@,
    {
        self.transaction
    }

    /// The queue and the slots, for polling.
    pub fn transaction(&self) -> (transaction: &Transaction)
        ensures
            transaction@ == self@,
    {
        &self.transaction
    }

    /// Hands out the buffer of the read that last left the queue in the slot
    /// of this handle.
    pub fn take_buffer(&mut self, future: &I2COperationFuture) -> (buffer: Vec<u8>)
        requires
            old(self).inv(),
            future.slot() < model::MAX_COMMANDS,
        ensures
            final(self).inv(),
            buffer@ == old(self)@.received[future.slot()],
            final(self)@ == (TransactionView {
                received: old(self)@.received.update(future.slot(), Seq::empty()),
                ..old(self)@
            }),
    {
        self.transaction.take_buffer(future.position())
    }

    /// Is a transaction in progress?
    pub fn working(&self) -> (working: bool)
        ensures
            working == (self@.commands.len() > 0),
    {
        self.transaction.have_more_commands()
    }

    /// Queues a transaction and, where the bus was idle, has it started.
    fn submit(&mut self, commands: Vec<Command>) -> (result: (
        Result<I2COperationFuture, Error>,
        Vec<BusAction>,
    ))
        requires
            old(self).inv(),
            model::acceptable(command_views(commands@)),
        ensures
            final(self).inv(),
            (final(self)@, result.1@) == old(self)@.on_request(command_views(commands@)),
            result.0 is Ok <==> old(self)@.has_room(commands@.len() as int),
            result.0 is Ok ==> result.0->Ok_0.slot() == old(self)@.target_position(),
            result.0 is Err ==> result.0->Err_0 == Error::Busy,
    {
        let gen_start = !self.working();
        let mut actions: Vec<BusAction> = Vec::new();
        match self.transaction.enqueue_commands(commands) {
            Ok(future) => {
                if gen_start {
                    actions.push(BusAction::EnableInterrupts);
                    Self::generate_start(&mut actions);
                }
                proof {
                    assert(actions@ =~= old(self)@.on_request(command_views(commands@)).1);
                }
                (Ok(future), actions)
            },
            Err(_) => (Err(Error::Busy), actions),
        }
    }

    fn generate_start(actions: &mut Vec<BusAction>)
        ensures
            final(actions)@ == old(actions)@.push(BusAction::GenerateStart),
    {
        actions.push(BusAction::GenerateStart);
    }

    fn generate_stop(actions: &mut Vec<BusAction>)
        ensures
            final(actions)@ == old(actions)@.push(BusAction::GenerateStop),
    {
        actions.push(BusAction::GenerateStop);
    }

    fn send_address(actions: &mut Vec<BusAction>, addr: u8, read: bool)
        ensures
            final(actions)@ == old(actions)@.push(BusAction::SendAddress { address: addr, read }),
    {
        actions.push(BusAction::SendAddress { address: addr, read });
    }

    fn send_byte(actions: &mut Vec<BusAction>, byte: u8)
        ensures
            final(actions)@ == old(actions)@.push(BusAction::SendByte(byte)),
    {
        actions.push(BusAction::SendByte(byte));
    }

    /// Starts the next transaction, or lets the bus go idle.
    fn chain_or_idle(actions: &mut Vec<BusAction>, more: bool)
        ensures
            final(actions)@ == old(actions)@.push(model::chain(more)),
    {
        if more {
            Self::generate_start(actions);
        } else {
            actions.push(BusAction::MaskInterrupts);
        }
    }

    /// The cause of an event interrupt: of several flags the earliest phase
    /// wins.
    pub fn event_interupt_reason(status: StatusFlags) -> (reason: I2CEventInterrupt)
        ensures
            reason == reason_of(status),
    {
        if status.start_bit {
            return I2CEventInterrupt::StartBitSent;
        }
        if status.address_sent {
            return I2CEventInterrupt::AddressSent;
        }
        if status.byte_transfer_finished {
            return I2CEventInterrupt::DataByteTransferFinished;
        }
        I2CEventInterrupt::Unknown
    }

    /// Classifies the fault flags by priority and has the flag of the fault
    /// cleared. A bus error is cleared and not reported.
    pub fn check_and_clear_error_flags(status: StatusFlags, actions: &mut Vec<BusAction>) -> (result:
        Result<StatusFlags, Error>)
        ensures
            result == match fault_of(status) {
                Some(fault) => Err(fault),
                None => Ok(status),
            },
            final(actions)@ == old(actions)@ + match flag_to_clear(status) {
                Some(flag) => seq![BusAction::ClearErrorFlag(flag)],
                None => Seq::empty(),
            },
    {
        let ghost before = actions@;
        if status.timeout {
            actions.push(BusAction::ClearErrorFlag(ErrorFlag::Timeout));
            assert(actions@ =~= before + seq![BusAction::ClearErrorFlag(ErrorFlag::Timeout)]);
            return Err(Error::Timeout);
        }
        if status.pec_error {
            actions.push(BusAction::ClearErrorFlag(ErrorFlag::PecError));
            assert(actions@ =~= before + seq![BusAction::ClearErrorFlag(ErrorFlag::PecError)]);
            return Err(Error::Crc);
        }
        if status.overrun {
            actions.push(BusAction::ClearErrorFlag(ErrorFlag::Overrun));
            assert(actions@ =~= before + seq![BusAction::ClearErrorFlag(ErrorFlag::Overrun)]);
            return Err(Error::Overrun);
        }
        if status.acknowledge_failure {
            actions.push(BusAction::ClearErrorFlag(ErrorFlag::AcknowledgeFailure));
            assert(actions@ =~= before + seq![
                BusAction::ClearErrorFlag(ErrorFlag::AcknowledgeFailure),
            ]);
            return Err(Error::NoAcknowledge(NoAcknowledgeSource::Unknown));
        }
        if status.arbitration_lost {
            actions.push(BusAction::ClearErrorFlag(ErrorFlag::ArbitrationLost));
            assert(actions@ =~= before + seq![
                BusAction::ClearErrorFlag(ErrorFlag::ArbitrationLost),
            ]);
            return Err(Error::ArbitrationLoss);
        }
        if status.bus_error {
            actions.push(BusAction::ClearErrorFlag(ErrorFlag::BusError));
            assert(actions@ =~= before + seq![BusAction::ClearErrorFlag(ErrorFlag::BusError)]);
        } else {
            assert(actions@ =~= before + Seq::<BusAction>::empty());
        }
        Ok(status)
    }

    /// A fault as it is recorded: a missing acknowledgement is placed in the
    /// phase that the transaction was in.
    fn refine(fault: Error, phase: State) -> (recorded: Error)
        ensures
            recorded == refined(fault, phase),
    {
        match phase {
            State::StartGenerated => fault.nack_addr(),
            State::AddressSend | State::ByteProcessing | State::LastByte => fault.nack_data(),
            _ => fault,
        }
    }

    /// The command on the wire is done.
    fn command_ended(actions: &mut Vec<BusAction>, ctx: &mut Transaction)
        requires
            old(ctx).wf(),
            old(ctx)@.commands.len() > 0,
        ensures
            final(ctx).wf(),
            final(ctx)@ == old(ctx)@.command_ended().0,
            final(actions)@ == old(actions)@ + old(ctx)@.command_ended().1,
    {
        let ghost before = ctx@;
        let ghost log = actions@;
        if ctx.is_read() {
            actions.push(BusAction::AwaitStop);
            ctx.set_state(State::Finished);
            let more = ctx.skip_transaction();
            Self::chain_or_idle(actions, more);
            proof {
                assert(actions@ =~= log + before.command_ended().1);
            }
        } else {
            ctx.set_state(State::Finished);
            if ctx.next_command() {
                ctx.set_state(State::Begin);
                Self::generate_start(actions);
                proof {
                    assert(ctx@.states =~= before.advanced().with_state(State::Begin).states);
                    assert(actions@ =~= log + before.command_ended().1);
                }
            } else {
                Self::generate_stop(actions);
                let more = ctx.have_more_commands();
                Self::chain_or_idle(actions, more);
                proof {
                    assert(actions@ =~= log + before.command_ended().1);
                }
            }
        }
    }

    /// The write on the wire sends its next byte, or ends.
    fn write_step(actions: &mut Vec<BusAction>, ctx: &mut Transaction)
        requires
            old(ctx).wf(),
            old(ctx)@.commands.len() > 0,
            old(ctx)@.head() is Write,
        ensures
            final(ctx).wf(),
            final(ctx)@ == old(ctx)@.write_step().0,
            final(actions)@ == old(actions)@ + old(ctx)@.write_step().1,
    {
        let ghost log = actions@;
        if let Some(btw) = ctx.byte_to_write() {
            Self::send_byte(actions, btw);
            proof {
                assert(actions@ =~= log + old(ctx)@.write_step().1);
            }
        } else {
            Self::command_ended(actions, ctx);
        }
    }

    fn handle_event_interrupt_impl(
        actions: &mut Vec<BusAction>,
        ctx: &mut Transaction,
        reason: I2CEventInterrupt,
        data: u8,
    )
        requires
            old(ctx).wf(),
            old(ctx)@.commands.len() > 0,
            reason != I2CEventInterrupt::Unknown,
            old(actions)@.len() == 0,
        ensures
            final(ctx).wf(),
            final(ctx)@ == old(ctx)@.on_event(reason, data).0,
            final(actions)@ == old(ctx)@.on_event(reason, data).1,
    {
        let ghost before = ctx@;
        match reason {
            I2CEventInterrupt::StartBitSent => {
                ctx.set_state(State::StartGenerated);
                Self::send_address(actions, ctx.address(), ctx.is_read());
                proof {
                    assert(actions@ =~= before.on_event(reason, data).1);
                }
            },
            I2CEventInterrupt::AddressSent => {
                ctx.set_state(State::AddressSend);
                actions.push(BusAction::ClearAddressFlag);
                if ctx.is_write() {
                    Self::write_step(actions, ctx);
                }
                proof {
                    assert(actions@ =~= before.on_event(reason, data).1);
                }
            },
            I2CEventInterrupt::DataByteTransferFinished => {
                if ctx.is_read() {
                    if ctx.state() == State::AddressSend {
                        ctx.set_state(State::ByteProcessing);
                    }
                    proof {
                        assert(ctx@.states =~= before.with_state(ctx@.state()).states);
                    }
                    let ghost entered = ctx@;
                    if Self::read_is_empty(ctx) {
                        actions.push(BusAction::DisableAckAndStop);
                        Self::command_ended(actions, ctx);
                        proof {
                            assert(actions@ =~= before.on_event(reason, data).1);
                        }
                        return ;
                    }
                    ctx.set_byte_to_read(data);
                    if ctx.state() == State::LastByte {
                        Self::command_ended(actions, ctx);
                        proof {
                            assert(actions@ =~= before.on_event(reason, data).1);
                        }
                        return ;
                    }
                    if ctx.last_bytes_to_read() {
                        actions.push(BusAction::DisableAckAndStop);
                        ctx.set_state(State::LastByte);
                        proof {
                            assert(actions@ =~= before.on_event(reason, data).1);
                        }
                    } else {
                        proof {
                            assert(actions@ =~= before.on_event(reason, data).1);
                        }
                    }
                } else {
                    ctx.set_state(State::ByteProcessing);
                    Self::write_step(actions, ctx);
                    proof {
                        assert(actions@ =~= before.on_event(reason, data).1);
                    }
                }
            },
            I2CEventInterrupt::Unknown => {},
        }
    }

    /// Has the read on the wire no buffer at all?
    fn read_is_empty(ctx: &Transaction) -> (empty: bool)
        requires
            ctx@.commands.len() > 0,
        ensures
            empty == (ctx@.head().buffer().len() == 0),
    {
        match ctx.command() {
            Some(Command::Read(_, buf)) => buf.len() == 0,
            Some(Command::Write(_, buf)) => buf.len() == 0,
            _ => true,
        }
    }

    /// The reaction to an event interrupt, from the status flags and the
    /// content of the data register as read on entry to the handler. A start
    /// bit has the address sent; the end of the address phase has a write
    /// send its first byte; a byte transferred has a read keep it and a write
    /// send the next; a command that has nothing left ends.
    pub fn handle_event_interrupt(&mut self, status: StatusFlags, data: u8) -> (actions: Vec<
        BusAction,
    >)
        requires
            old(self).inv(),
            old(self)@.commands.len() > 0,
            reason_of(status) != I2CEventInterrupt::Unknown,
        ensures
            final(self).inv(),
            final(self)@ == old(self)@.on_event(reason_of(status), data).0,
            actions@ == old(self)@.on_event(reason_of(status), data).1,
    {
        let mut actions: Vec<BusAction> = Vec::new();
        let reason = Self::event_interupt_reason(status);
        proof {
            lemma_event_keeps_inv(self@, reason, data);
        }
        Self::handle_event_interrupt_impl(&mut actions, &mut self.transaction, reason, data);
        actions
    }

    fn handle_error_interrupt_impl(
        actions: &mut Vec<BusAction>,
        ctx: &mut Transaction,
        status: StatusFlags,
    )
        requires
            old(ctx).wf(),
            old(actions)@.len() == 0,
        ensures
            final(ctx).wf(),
            final(ctx)@ == old(ctx)@.on_error(status).0,
            final(actions)@ == old(ctx)@.on_error(status).1,
    {
        let ghost before = ctx@;
        if let Err(e) = Self::check_and_clear_error_flags(status, actions) {
            let recorded = Self::refine(e, ctx.state());
            ctx.set_state(State::Fail(recorded));
            let more = ctx.skip_transaction();
            Self::chain_or_idle(actions, more);
        }
        proof {
            assert(actions@ =~= before.on_error(status).1);
        }
    }

    /// The reaction to an error interrupt, from the status flags as read on
    /// entry to the handler. A fault is recorded in the current slot; what is
    /// left of its transaction leaves the queue; the next transaction starts,
    /// or the bus goes idle.
    pub fn handle_error_interrupt(&mut self, status: StatusFlags) -> (actions: Vec<BusAction>)
        requires
            old(self).inv(),
        ensures
            final(self).inv(),
            final(self)@ == old(self)@.on_error(status).0,
            actions@ == old(self)@.on_error(status).1,
    {
        let mut actions: Vec<BusAction> = Vec::new();
        proof {
            lemma_error_keeps_inv(self@, status);
        }
        Self::handle_error_interrupt_impl(&mut actions, &mut self.transaction, status);
        actions
    }
}

/// The requests that a device driver makes of the bus. Each returns at once,
/// with a handle to poll and with the actions that are now due on the
/// controller; `Busy` means that the queue had no room and nothing changed.
pub trait NonBlockingI2C {
    /// The engine that serves the requests.
    spec fn engine(&self) -> TransactionView;

    /// Writes the bytes, then reads until the buffer is full, without letting
    /// go of the bus in between.
    fn write_read_async(&mut self, addr: u8, to_send: &[u8], to_recv: Vec<u8>) -> (result: (
        Result<I2COperationFuture, Error>,
        Vec<BusAction>,
    ))
        requires
            old(self).engine().inv(),
        ensures
            final(self).engine().inv(),
            (final(self).engine(), result.1@) == old(self).engine().on_request(
                seq![CommandView::Write(addr, to_send@), CommandView::Read(addr, to_recv@)],
            ),
            result.0 is Ok <==> old(self).engine().has_room(2),
            result.0 is Ok ==> result.0->Ok_0.slot() == old(self).engine().target_position(),
            result.0 is Err ==> result.0->Err_0 == Error::Busy,
    ;

    /// Writes the bytes.
    fn write_async(&mut self, addr: u8, to_send: &[u8]) -> (result: (
        Result<I2COperationFuture, Error>,
        Vec<BusAction>,
    ))
        requires
            old(self).engine().inv(),
        ensures
            final(self).engine().inv(),
            (final(self).engine(), result.1@) == old(self).engine().on_request(
                seq![CommandView::Write(addr, to_send@)],
            ),
            result.0 is Ok <==> old(self).engine().has_room(1),
            result.0 is Ok ==> result.0->Ok_0.slot() == old(self).engine().target_position(),
            result.0 is Err ==> result.0->Err_0 == Error::Busy,
    ;

    /// Reads until the buffer is full.
    fn read_async(&mut self, addr: u8, to_recv: Vec<u8>) -> (result: (
        Result<I2COperationFuture, Error>,
        Vec<BusAction>,
    ))
        requires
            old(self).engine().inv(),
        ensures
            final(self).engine().inv(),
            (final(self).engine(), result.1@) == old(self).engine().on_request(
                seq![CommandView::Read(addr, to_recv@)],
            ),
            result.0 is Ok <==> old(self).engine().has_room(1),
            result.0 is Ok ==> result.0->Ok_0.slot() == old(self).engine().target_position(),
            result.0 is Err ==> result.0->Err_0 == Error::Busy,
    ;
}

impl NonBlockingI2C for I2c {
    open spec fn engine(&self) -> TransactionView {
        self@
    }

    fn write_read_async(&mut self, addr: u8, to_send: &[u8], to_recv: Vec<u8>) -> (result: (
        Result<I2COperationFuture, Error>,
        Vec<BusAction>,
    )) {
        let mut commands: Vec<Command> = Vec::new();
        commands.push(Command::Write(addr, vstd::slice::slice_to_vec(to_send)));
        commands.push(Command::Read(addr, to_recv));
        proof {
            assert(command_views(commands@) =~= seq![
                CommandView::Write(addr, to_send@),
                CommandView::Read(addr, to_recv@),
            ]);
        }
        self.submit(commands)
    }

    fn write_async(&mut self, addr: u8, to_send: &[u8]) -> (result: (
        Result<I2COperationFuture, Error>,
        Vec<BusAction>,
    )) {
        let mut commands: Vec<Command> = Vec::new();
        commands.push(Command::Write(addr, vstd::slice::slice_to_vec(to_send)));
        proof {
            assert(command_views(commands@) =~= seq![CommandView::Write(addr, to_send@)]);
        }
        self.submit(commands)
    }

    fn read_async(&mut self, addr: u8, to_recv: Vec<u8>) -> (result: (
        Result<I2COperationFuture, Error>,
        Vec<BusAction>,
    )) {
        let mut commands: Vec<Command> = Vec::new();
        commands.push(Command::Read(addr, to_recv));
        proof {
            assert(command_views(commands@) =~= seq![CommandView::Read(addr, to_recv@)]);
        }
        self.submit(commands)
    }
}

} // verus!
