use heapless::spsc::Queue;
use vstd::prelude::*;

use super::futures::I2COperationFuture;
use super::laws::lemma_request_keeps_inv;
use super::model::{acceptable, TransactionView, MAX_COMMANDS};
use super::queue::{
    queue_capacity, queue_dequeue, queue_enqueue, queue_front_mut, queue_items, queue_len,
    queue_new, queue_peek,
};
use super::states::State;

verus! {

/// One bus operation. A command owns its buffer for as long as it is queued.
#[derive(Debug)]
pub enum Command {
    /// Read from the device at the address until the buffer is full.
    Read(u8, Vec<u8>),
    /// Write the buffer to the device at the address.
    Write(u8, Vec<u8>),
    /// Marks the end of a logical transaction.
    NoOp,
}

/// What a command is, with its buffer as a sequence of bytes.
pub ghost enum CommandView {
    Read(u8, Seq<u8>),
    Write(u8, Seq<u8>),
    NoOp,
}

impl CommandView {
    /// A command that moves data, as opposed to the end marker.
    pub open spec fn is_data(self) -> bool {
        !(self is NoOp)
    }

    /// The device address, and 0 for the end marker.
    pub open spec fn address(self) -> u8 {
        match self {
            CommandView::Read(a, _) => a,
            CommandView::Write(a, _) => a,
            CommandView::NoOp => 0,
        }
    }

    /// The bytes of the buffer, and none for the end marker.
    pub open spec fn buffer(self) -> Seq<u8> {
        match self {
            CommandView::Read(_, b) => b,
            CommandView::Write(_, b) => b,
            CommandView::NoOp => Seq::empty(),
        }
    }

    /// The same command with one byte of its buffer replaced.
    pub open spec fn with_byte(self, position: int, value: u8) -> CommandView {
        match self {
            CommandView::Read(a, b) => CommandView::Read(a, b.update(position, value)),
            CommandView::Write(a, b) => CommandView::Write(a, b.update(position, value)),
            CommandView::NoOp => CommandView::NoOp,
        }
    }
}

impl View for Command {
    type V = CommandView;

    open spec fn view(&self) -> CommandView {
        match *self {
            Command::Read(a, b) => CommandView::Read(a, b@),
            Command::Write(a, b) => CommandView::Write(a, b@),
            Command::NoOp => CommandView::NoOp,
        }
    }
}

impl Default for Command {
    fn default() -> (command: Command)
        ensures
            command@ == CommandView::NoOp,
    {
        Command::NoOp
    }
}

impl Command {
    pub fn address(&self) -> (address: u8)
        ensures
            address == self@.address(),
    {
        match self {
            Command::Read(a, _) => *a,
            Command::Write(a, _) => *a,
            Command::NoOp => 0,
        }
    }

    pub fn is_read(&self) -> (read: bool)
        ensures
            read == (self@ is Read),
    {
        match self {
            Command::Read(_, _) => true,
            _ => false,
        }
    }

    pub fn is_write(&self) -> (write: bool)
        ensures
            write == (self@ is Write),
    {
        match self {
            Command::Write(_, _) => true,
            _ => false,
        }
    }

    pub fn is_noop(&self) -> (noop: bool)
        ensures
            noop == (self@ is NoOp),
    {
        match self {
            Command::NoOp => true,
            _ => false,
        }
    }

    /// The bytes that a write sends.
    pub fn write_buf(&self) -> (bytes: &[u8])
        requires
            self@ is Write,
        ensures
            bytes@ == self@.buffer(),
    {
        match self {
            Command::Write(_, b) => b.as_slice(),
            _ => vstd::pervasive::unreached(),
        }
    }

    /// The buffer that a read fills. Whatever the caller leaves in it becomes
    /// the buffer of the command; the address stays.
    pub fn read_buf(&mut self) -> (bytes: &mut [u8])
        requires
            old(self)@ is Read,
        ensures
            bytes@ == old(self)@.buffer(),
            final(self)@ == CommandView::Read(old(self)@.address(), final(bytes)@),
    {
        match self {
            Command::Read(_, b) => b.as_mut_slice(),
            _ => vstd::pervasive::unreached(),
        }
    }
}

/// The commands of a sequence, each as its view.
pub open spec fn command_views(commands: Seq<Command>) -> Seq<CommandView> {
    Seq::new(commands.len(), |i: int| commands[i]@)
}

/// The buffers of a sequence, each as its bytes.
pub open spec fn buffer_views(buffers: Seq<Vec<u8>>) -> Seq<Seq<u8>> {
    Seq::new(buffers.len(), |i: int| buffers[i]@)
}

/// The queue of commands with the state of every slot. There is one for the
/// bus; whoever touches it holds it exclusively.
pub struct Transaction {
    commands: Queue<Command, 5>,
    buffer_position: usize,
    states: [State; 5],
    state_position: usize,
    received: Vec<Vec<u8>>,
}

impl View for Transaction {
    type V = TransactionView;

    closed spec fn view(&self) -> TransactionView {
        TransactionView {
            commands: command_views(queue_items(self.commands)),
            buffer_position: self.buffer_position as int,
            states: self.states@,
            state_position: self.state_position as int,
            received: buffer_views(self.received@),
        }
    }
}

impl Transaction {
    /// The structure that every operation keeps.
    pub open spec fn wf(&self) -> bool {
        self@.wf()
    }

    /// What holds between any two steps of the engine.
    pub open spec fn inv(&self) -> bool {
        self@.inv()
    }

    /// An idle engine: nothing queued, every slot at its beginning.
    pub fn new() -> (transaction: Transaction)
        ensures
            transaction@ == TransactionView::initial(),
            transaction.inv(),
    {
        let mut received: Vec<Vec<u8>> = Vec::new();
        let mut i: usize = 0;
        while i < 5
            invariant
                i <= 5,
                received@.len() == i,
                forall|j: int| 0 <= j < i ==> (#[trigger] received@[j])@ =~= Seq::<u8>::empty(),
            decreases 5 - i,
        {
            received.push(Vec::new());
            i += 1;
        }
        let transaction = Transaction {
            commands: queue_new(),
            buffer_position: 0,
            states: [State::Begin; 5],
            state_position: 0,
            received,
        };
        proof {
            assert(transaction@.commands =~= Seq::empty());
            assert(transaction@.states =~= TransactionView::initial().states);
            assert(transaction@.received =~= TransactionView::initial().received);
        }
        transaction
    }

    /// Is anything queued?
    pub fn have_more_commands(&self) -> (more: bool)
        ensures
            more == (self@.commands.len() > 0),
    {
        queue_len(&self.commands) > 0
    }

    /// The command on the wire, if there is one.
    pub fn command(&self) -> (command: Option<&Command>)
        ensures
            command is Some <==> self@.commands.len() > 0,
            command is Some ==> command.unwrap()@ == self@.head(),
    {
        queue_peek(&self.commands)
    }

    /// The address of the command on the wire.
    pub fn address(&self) -> (address: u8)
        requires
            self@.commands.len() > 0,
        ensures
            address == self@.head().address(),
    {
        match self.command() {
            Some(command) => command.address(),
            None => vstd::pervasive::unreached(),
        }
    }

    pub fn is_read(&self) -> (read: bool)
        ensures
            read == (self@.commands.len() > 0 && self@.head() is Read),
    {
        match self.command() {
            Some(command) => command.is_read(),
            None => false,
        }
    }

    pub fn is_write(&self) -> (write: bool)
        ensures
            write == (self@.commands.len() > 0 && self@.head() is Write),
    {
        match self.command() {
            Some(command) => command.is_write(),
            None => false,
        }
    }

    /// The state of the current slot.
    pub fn state(&self) -> (state: State)
        requires
            self.wf(),
        ensures
            state == self@.state(),
    {
        self.states[self.state_position]
    }

    /// Records the state of the current slot.
    pub(crate) fn set_state(&mut self, state: State)
        requires
            old(self).wf(),
        ensures
            final(self)@ == old(self)@.with_state(state),
            final(self).wf(),
    {
        self.states[self.state_position] = state;
        proof {
            assert(self@.states =~= old(self)@.states.update(old(self)@.state_position, state));
        }
    }

    /// Queues one transaction: the commands, then the end marker. The slot of
    /// the handle returned is the current one if nothing was queued, else the
    /// one after, and it starts at `Begin`. Without room for the commands and
    /// the marker the commands come back and nothing changes.
    pub fn enqueue_commands(&mut self, commands: Vec<Command>) -> (result: Result<
        I2COperationFuture,
        Vec<Command>,
    >)
        requires
            old(self).inv(),
            acceptable(command_views(commands@)),
        ensures
            final(self).inv(),
            result is Ok <==> old(self)@.has_room(commands@.len() as int),
            result is Ok ==> result->Ok_0.slot() == old(self)@.target_position()
                && final(self)@ == old(self)@.enqueued(command_views(commands@)),
            result is Err ==> result->Err_0 == commands && final(self)@ == old(self)@,
    {
        let queued = queue_len(&self.commands);
        let count = commands.len();
        if queue_capacity(&self.commands) - queued < count + 1 {
            return Err(commands);
        }
        let pos = if queued == 0 {
            self.state_position
        } else {
            self.get_next_state_position()
        };
        let ghost given = commands@;
        let ghost before = queue_items(self.commands);
        let mut rest = commands;
        let mut moved: usize = 0;
        while moved < count
            invariant
                moved <= count,
                count == given.len(),
                before.len() + count + 1 <= 4,
                rest@ == given.skip(moved as int),
                queue_items(self.commands) == before + given.take(moved as int),
                self.buffer_position == old(self).buffer_position,
                self.states == old(self).states,
                self.state_position == old(self).state_position,
                self.received == old(self).received,
            decreases count - moved,
        {
            let command = rest.remove(0);
            let pushed = queue_enqueue(&mut self.commands, command);
            proof {
                assert(rest@ =~= given.skip(moved as int + 1));
                assert(before + given.take(moved as int + 1) =~= (before + given.take(
                    moved as int,
                )).push(command));
            }
            moved += 1;
        }
        let pushed = queue_enqueue(&mut self.commands, Command::NoOp);
        self.states[pos] = State::Begin;
        self.received[pos] = Vec::new();
        proof {
            let views = command_views(given);
            let target = old(self)@.target_position();
            assert(given.take(count as int) =~= given);
            assert(self@.commands =~= old(self)@.commands + views.push(CommandView::NoOp));
            assert(self@.states =~= old(self)@.states.update(target, State::Begin));
            assert(self@.received =~= old(self)@.received.update(target, Seq::empty()));
            assert(self@ == old(self)@.enqueued(views));
            lemma_request_keeps_inv(old(self)@, views);
        }
        Ok(I2COperationFuture::new(pos))
    }

    /// The next byte of the write on the wire, if it has one left. The cursor
    /// moves past the byte returned.
    pub fn byte_to_write(&mut self) -> (byte: Option<u8>)
        requires
            old(self).wf(),
            old(self)@.commands.len() > 0,
            old(self)@.head() is Write,
        ensures
            final(self).wf(),
            old(self)@.buffer_position < old(self)@.head().buffer().len() ==> byte == Some(
                old(self)@.head().buffer()[old(self)@.buffer_position],
            ) && final(self)@ == old(self)@.with_position(old(self)@.buffer_position + 1),
            old(self)@.buffer_position >= old(self)@.head().buffer().len() ==> byte is None
                && final(self)@ == old(self)@,
    {
        let position = self.buffer_position;
        let byte = match queue_peek(&self.commands) {
            Some(command) => {
                let buf = command.write_buf();
                if position < buf.len() {
                    Some(buf[position])
                } else {
                    None
                }
            },
            None => None,
        };
        if byte.is_some() {
            self.next_byte();
        }
        byte
    }

    /// Stores a byte that arrived for the read on the wire, unless its buffer
    /// is full. The cursor moves past the byte stored.
    pub fn set_byte_to_read(&mut self, new_val: u8)
        requires
            old(self).wf(),
            old(self)@.commands.len() > 0,
            old(self)@.head() is Read,
        ensures
            final(self).wf(),
            final(self)@ == old(self)@.captured(new_val),
    {
        let position = self.buffer_position;
        let mut stored = false;
        match queue_front_mut(&mut self.commands) {
            Some(command) => {
                let buf = command.read_buf();
                if position < buf.len() {
                    buf[position] = new_val;
                    stored = true;
                }
            },
            None => {},
        }
        proof {
            let before = old(self)@;
            if stored {
                assert(self@.commands =~= before.commands.update(
                    0,
                    before.head().with_byte(before.buffer_position, new_val),
                ));
            } else {
                assert(self@.commands =~= before.commands);
            }
            assert(self@.commands.len() == 4 ==> self@.commands.take(2) =~= before.commands.take(
                2,
            ).update(0, self@.commands[0]) && self@.commands.skip(2) =~= before.commands.skip(2));
        }
        if stored {
            self.next_byte();
        }
    }

    /// Moves the cursor past one byte of the command on the wire.
    pub fn next_byte(&mut self)
        requires
            old(self).wf(),
            old(self)@.commands.len() > 0,
            old(self)@.buffer_position < old(self)@.head().buffer().len(),
        ensures
            final(self).wf(),
            final(self)@ == old(self)@.with_position(old(self)@.buffer_position + 1),
    {
        proof {
            let head = queue_items(self.commands)[0];
            assert(head@ == self@.head());
            match head {
                Command::Read(_, b) => {
                    vstd::std_specs::vec::axiom_spec_len(&b);
                },
                Command::Write(_, b) => {
                    vstd::std_specs::vec::axiom_spec_len(&b);
                },
                Command::NoOp => {},
            }
        }
        self.buffer_position += 1;
    }

    /// Is exactly one byte of the read on the wire still to come?
    pub fn last_bytes_to_read(&mut self) -> (last: bool)
        requires
            old(self)@.commands.len() > 0,
            old(self)@.head() is Read,
        ensures
            final(self)@ == old(self)@,
            last == (old(self)@.buffer_position + 1 == old(self)@.head().buffer().len()),
    {
        let position = self.buffer_position;
        match queue_peek(&self.commands) {
            Some(Command::Read(_, buf)) => position < buf.len() && position + 1 == buf.len(),
            _ => false,
        }
    }

    /// Takes the command on the wire out of the queue. If the end marker of
    /// its transaction follows, that goes too: the slot gets its verdict, and
    /// the next slot becomes the current one. The result says whether the
    /// transaction goes on with another command.
    pub fn next_command(&mut self) -> (more: bool)
        requires
            old(self).wf(),
        ensures
            final(self).wf(),
            (final(self)@, more) == old(self)@.next_command(),
    {
        let popped = queue_dequeue(&mut self.commands);
        self.buffer_position = 0;
        match popped {
            Some(Command::Read(_, buffer)) => {
                self.received[self.state_position] = buffer;
            },
            _ => {},
        }
        let ends = match queue_peek(&self.commands) {
            Some(command) => command.is_noop(),
            None => false,
        };
        let more = queue_len(&self.commands) > 0 && !ends;
        if ends {
            let marker = queue_dequeue(&mut self.commands);
            match self.states[self.state_position] {
                State::Fail(_) => {},
                _ => {
                    self.states[self.state_position] = State::Finished;
                },
            }
            self.state_position = self.get_next_state_position();
        }
        proof {
            let before = old(self)@;
            if before.commands.len() > 0 {
                let items = queue_items(old(self).commands);
                assert(items[0]@ == before.commands[0]);
                assert(items[1]@ == before.commands[1]);
                if ends {
                    assert(self@.commands =~= before.commands.skip(2));
                    assert(self@.states =~= before.states.update(
                        before.state_position,
                        before.state().settled(),
                    ));
                    if before.commands[0] is Read {
                        assert(self@.received =~= before.received.update(
                            before.state_position,
                            before.commands[0].buffer(),
                        ));
                    } else {
                        assert(self@.received =~= before.received);
                    }
                    assert(self@ == before.retired());
                    assert(before.commands.len() == 4 ==> before.commands.skip(2).len() == 2);
                } else {
                    assert(self@.commands =~= before.commands.skip(1));
                    assert(self@.received =~= before.received);
                    assert(self@.states =~= before.states);
                    assert(self@ == before.advanced());
                }
            } else {
                assert(self@.commands =~= before.commands);
                assert(self@.received =~= before.received);
                assert(self@.states =~= before.states);
            }
        }
        more
    }

    /// The slot after the current one, round the ring of slots.
    fn get_next_state_position(&self) -> (position: usize)
        requires
            self.state_position < MAX_COMMANDS,
        ensures
            position == (self.state_position + 1) % (MAX_COMMANDS as int),
    {
        (self.state_position + 1) % MAX_COMMANDS
    }

    /// Takes what is left of the transaction on the wire out of the queue, end
    /// marker included. The result says whether another transaction waits.
    pub fn skip_transaction(&mut self) -> (more: bool)
        requires
            old(self).wf(),
        ensures
            final(self).wf(),
            final(self)@ == old(self)@.skipped(),
            more == (final(self)@.commands.len() > 0),
    {
        proof {
            if self@.commands.len() > 0 && self@.head_len() == 3 {
                lemma_advanced_then_retired(self@);
            }
        }
        let mut goes_on = self.next_command();
        while goes_on
            invariant
                self.wf(),
                goes_on ==> self@.commands.len() > 0 && self@.head_len() == 2 && self@.retired()
                    == old(self)@.skipped(),
                !goes_on ==> self@ == old(self)@.skipped(),
            decreases self@.commands.len(),
        {
            goes_on = self.next_command();
        }
        self.have_more_commands()
    }

    /// Hands out the buffer of the read that last left the queue in this slot,
    /// and leaves an empty one in its place.
    pub fn take_buffer(&mut self, pos: usize) -> (buffer: Vec<u8>)
        requires
            old(self).wf(),
            pos < MAX_COMMANDS,
        ensures
            final(self).wf(),
            buffer@ == old(self)@.received[pos as int],
            final(self)@ == (TransactionView {
                received: old(self)@.received.update(pos as int, Seq::empty()),
                ..old(self)@
            }),
    {
        self.received.push(Vec::new());
        let buffer = self.received.swap_remove(pos);
        proof {
            assert(self@.received =~= old(self)@.received.update(pos as int, Seq::empty()));
        }
        buffer
    }

    /// The state of any slot.
    pub fn state_at(&self, pos: usize) -> (state: State)
        requires
            pos < MAX_COMMANDS,
        ensures
            state == self@.states[pos as int],
    {
        self.states[pos]
    }

    /// Has the transaction of this slot got its verdict?
    pub fn finished(&self, pos: usize) -> (finished: bool)
        requires
            pos < MAX_COMMANDS,
        ensures
            finished == self@.states[pos as int].is_terminal(),
    {
        match self.states[pos] {
            State::Fail(_) => true,
            State::Finished => true,
            _ => false,
        }
    }
}

/// Taking the transaction at the front out command by command gives what
/// taking it out whole gives.
pub proof fn lemma_advanced_then_retired(view: TransactionView)
    requires
        view.wf(),
        view.commands.len() > 0,
        view.head_len() == 3,
    ensures
        view.advanced().retired() == view.retired(),
        view.advanced().wf(),
        view.advanced().head_len() == 2,
{
    assert(view.commands.len() == 3);
    assert(view.advanced().commands.skip(2) =~= view.commands.skip(3));
}

} // verus!
