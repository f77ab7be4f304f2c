//! The two critical sections of the channel, on the queue alone.
//!
//! Whoever holds the lock hands the queue to one of these functions; what
//! they do to it is stated over the queue's view, a `Seq<T>` in arrival order.

use std::collections::VecDeque;
use vstd::prelude::*;

use crate::model::{after_poll, after_send, head};

verus! {

/// The queue of a fresh channel: nothing has arrived yet.
pub fn empty_queue<T>() -> (queue: VecDeque<T>)
    ensures
        queue@ == Seq::<T>::empty(),
{
    VecDeque::new()
}

/// The producer's critical section: `item` becomes the last element and
/// everything that was queued before keeps its place.
pub fn enqueue<T>(queue: &mut VecDeque<T>, item: T)
    ensures
        final(queue)@ == after_send(old(queue)@, item),
{
    queue.push_back(item);
}

/// The consumer's critical section. On a non-empty queue the head moves into
/// `slot` and the result is `false`; on an empty queue nothing changes but
/// `slot`, which is cleared, and the result is `true`: the consumer has to
/// park and check again once woken.
pub fn poll<T>(queue: &mut VecDeque<T>, slot: &mut Option<T>) -> (park: bool)
    ensures
        park == (old(queue)@.len() == 0),
        park == final(slot).is_none(),
        *final(slot) == head(old(queue)@),
        final(queue)@ == after_poll(old(queue)@),
{
    *slot = queue.pop_front();
    slot.is_none()
}

} // verus!
