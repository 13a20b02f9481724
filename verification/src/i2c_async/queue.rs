//! The command queue is a `heapless` single-producer single-consumer ring.
//! Verus does not read its code: this module states what the engine relies on.

use heapless::spsc::Queue;
use vstd::prelude::*;

use super::transaction::Command;

verus! {

/// `heapless::spsc::Queue`: a ring of `N` places, of which one stays free.
#[verifier::external_type_specification]
#[verifier::external_body]
#[verifier::reject_recursive_types(T)]
pub struct ExQueue<T, const N: usize>(Queue<T, N>);

/// The commands held by a queue, front first.
pub uninterp spec fn queue_items(queue: Queue<Command, 5>) -> Seq<Command>;

/// `Queue::new`: an empty queue.
#[verifier::external_body]
pub(crate) fn queue_new() -> (queue: Queue<Command, 5>)
    ensures
        queue_items(queue) == Seq::<Command>::empty(),
{
    Queue::new()
}

/// `Queue::capacity`: the number of commands that fit, which is one less than
/// the places of the ring.
#[verifier::external_body]
pub(crate) fn queue_capacity(queue: &Queue<Command, 5>) -> (capacity: usize)
    ensures
        capacity == 4,
{
    queue.capacity()
}

/// `Queue::len`: the number of commands held.
#[verifier::external_body]
pub(crate) fn queue_len(queue: &Queue<Command, 5>) -> (len: usize)
    ensures
        len == queue_items(*queue).len(),
{
    queue.len()
}

/// `Queue::enqueue`: appends the command at the back unless four are held
/// already, in which case the command comes back and nothing changes.
#[verifier::external_body]
pub(crate) fn queue_enqueue(queue: &mut Queue<Command, 5>, command: Command) -> (result: Result<(), Command>)
    ensures
        result is Ok <==> queue_items(*old(queue)).len() < 4,
        result is Ok ==> queue_items(*final(queue)) == queue_items(*old(queue)).push(command),
        result is Err ==> result->Err_0 == command
            && queue_items(*final(queue)) == queue_items(*old(queue)),
{
    queue.enqueue(command)
}

/// `Queue::dequeue`: removes and returns the front command, if there is one.
#[verifier::external_body]
pub(crate) fn queue_dequeue(queue: &mut Queue<Command, 5>) -> (front: Option<Command>)
    ensures
        queue_items(*old(queue)).len() == 0 ==> front is None
            && queue_items(*final(queue)) == queue_items(*old(queue)),
        queue_items(*old(queue)).len() > 0 ==> front == Some(queue_items(*old(queue))[0])
            && queue_items(*final(queue)) == queue_items(*old(queue)).skip(1),
{
    queue.dequeue()
}

/// `Queue::peek`: the front command, if there is one.
#[verifier::external_body]
pub(crate) fn queue_peek(queue: &Queue<Command, 5>) -> (front: Option<&Command>)
    ensures
        queue_items(*queue).len() == 0 ==> front is None,
        queue_items(*queue).len() > 0 ==> front == Some(&queue_items(*queue)[0]),
{
    queue.peek()
}

/// `Queue::iter_mut` and the first `next` of the iterator: the front command,
/// for changing in place. The other commands stay as they are.
#[verifier::external_body]
pub(crate) fn queue_front_mut(queue: &mut Queue<Command, 5>) -> (front: Option<&mut Command>)
    ensures
        queue_items(*old(queue)).len() == 0 ==> front is None
            && queue_items(*final(queue)) == queue_items(*old(queue)),
        queue_items(*old(queue)).len() > 0 ==> front is Some
            && *front.unwrap() == queue_items(*old(queue))[0]
            && queue_items(*final(queue)) == queue_items(*old(queue)).update(0, *final(front.unwrap())),
{
    queue.iter_mut().next()
}

} // verus!
