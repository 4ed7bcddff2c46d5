//! The queue of events that wait for delivery, kept in a `smallvec::SmallVec`.
//!
//! Nothing in this module is proved: it states what the `SmallVec` operations that the handler
//! relies on do to the sequence of queued events.

use crate::event::HandlerEvent;
use smallvec::SmallVec;
use vstd::prelude::*;

verus! {

/// Events in the order in which they were queued. The first sixteen are stored inline.
#[verifier::external_body]
pub struct EventQueue {
    items: SmallVec<[HandlerEvent; 16]>,
}

/// The events that a queue holds, oldest first.
pub uninterp spec fn queued(queue: EventQueue) -> Seq<HandlerEvent>;

/// Largest length at which a queue is still asked to take one more event.
///
/// A full `SmallVec` grows to the next power of two above its length, and panics where that
/// many items take more than `isize::MAX` bytes. An event takes at most 64 bytes: three words
/// for the bytes it holds, eight bytes for the timeout, and what tells the variants apart. So
/// up to this length the capacity to grow to takes no more than a quarter of the address
/// space.
pub open spec fn max_queue_len() -> nat {
    (usize::MAX / 256) as nat
}

/// `SmallVec::new`: a queue that holds nothing.
#[verifier::external_body]
pub(crate) fn queue_new() -> (queue: EventQueue)
    ensures
        queued(queue) == Seq::<HandlerEvent>::empty(),
{
    EventQueue { items: SmallVec::new() }
}

/// `SmallVec::len`: the number of queued events.
#[verifier::external_body]
pub(crate) fn queue_len(queue: &EventQueue) -> (len: usize)
    ensures
        len == queued(*queue).len(),
{
    queue.items.len()
}

/// `SmallVec::is_empty`: whether nothing is queued.
#[verifier::external_body]
pub(crate) fn queue_is_empty(queue: &EventQueue) -> (empty: bool)
    ensures
        empty == (queued(*queue).len() == 0),
{
    queue.items.is_empty()
}

/// `SmallVec::push`: the event is appended behind all that are queued, which stay as they are.
///
/// The call is made only up to [`max_queue_len`], where the capacity that the queue may have
/// to grow to can be computed. Growing may still exhaust memory, which aborts the process.
#[verifier::external_body]
pub(crate) fn queue_push(queue: &mut EventQueue, event: HandlerEvent)
    requires
        queued(*old(queue)).len() <= max_queue_len(),
    ensures
        queued(*final(queue)) == queued(*old(queue)).push(event),
{
    queue.items.push(event)
}

/// `SmallVec::remove` at index 0: the oldest event is taken out and returned, the others keep
/// their order.
#[verifier::external_body]
pub(crate) fn queue_remove_first(queue: &mut EventQueue) -> (event: HandlerEvent)
    requires
        queued(*old(queue)).len() > 0,
    ensures
        event == queued(*old(queue))[0],
        queued(*final(queue)) == queued(*old(queue)).skip(1),
{
    queue.items.remove(0)
}

} // verus!
