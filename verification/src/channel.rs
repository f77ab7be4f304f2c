//! The handles of a channel and the state they share.

use std::collections::VecDeque;
use std::sync::{Arc, Condvar, Mutex};
use vstd::pervasive::unreached;
use vstd::prelude::*;

use crate::queue::{empty_queue, enqueue};
use crate::sync::{acquire, guard_queue, new_signal, queue_of, share, wait_for_item, wake_one};

verus! {

/// What all handles of one channel own together: the queue behind its lock,
/// and the signal on which the consumer sleeps.
#[verifier::reject_recursive_types(T)]
pub struct Inner<T> {
    queue: Mutex<VecDeque<T>>,
    available: Condvar,
}

/// The sending half. It can be cloned; every clone feeds the same queue.
#[verifier::reject_recursive_types(T)]
pub struct Sender<T> {
    inner: Arc<Inner<T>>,
}

/// The receiving half. There is one per channel and it cannot be cloned.
#[verifier::reject_recursive_types(T)]
pub struct Receiver<T> {
    inner: Arc<Inner<T>>,
}

impl<T> Sender<T> {
    /// The shared state that this handle feeds.
    pub closed spec fn shared(&self) -> Inner<T> {
        *self.inner
    }

    /// Appends `item` to the channel's queue under the lock, releases the
    /// lock and then wakes the consumer if it sleeps. Never waits for the
    /// consumer. The handle itself is unchanged.
    pub fn send(&mut self, item: T)
        ensures
            *final(self) == *old(self),
    {
        {
            let mut guard = acquire(&self.inner.queue);
            let queue = queue_of(&mut guard);
            enqueue(queue, item);
        }
        wake_one(&self.inner.available);
    }
}

impl<T> Clone for Sender<T> {
    /// A further handle on the same shared state, equal to this one in every
    /// respect. Neither the queue nor the signal is duplicated.
    fn clone(&self) -> (other: Self)
        ensures
            other == *self,
    {
        Sender { inner: share(&self.inner) }
    }
}

impl<T> Receiver<T> {
    /// The shared state that this handle drains.
    pub closed spec fn shared(&self) -> Inner<T> {
        *self.inner
    }

    /// Removes and returns the head of the channel's queue, sleeping for as
    /// long as the queue is empty. The handle itself is unchanged.
    pub fn recv(&mut self) -> (item: T)
        ensures
            *final(self) == *old(self),
    {
        let guard = acquire(&self.inner.queue);
        let (_guard, slot) = wait_for_item(&self.inner.available, guard);
        match slot {
            Some(item) => item,
            None => unreached(),
        }
    }
}

/// A fresh channel: an empty queue, shared by the two handles returned.
pub fn channel<T>() -> (ends: (Sender<T>, Receiver<T>))
    ensures
        ends.0.shared() == ends.1.shared(),
{
    let inner = Arc::new(Inner { queue: guard_queue(empty_queue()), available: new_signal() });
    (Sender { inner: share(&inner) }, Receiver { inner })
}

} // verus!
