//! The synchronisation primitives of `std::sync` that the channel rests on.
//!
//! Nothing in this file is proved. Each item states what is taken on trust
//! from the standard library; what another thread may have done to the queue
//! is never part of a contract.

use std::collections::VecDeque;
use std::sync::{Arc, Condvar, Mutex, MutexGuard};
use vstd::prelude::*;

use crate::queue::poll;

verus! {

/// `std::sync::Mutex`, opaque to the verifier.
#[verifier::external_type_specification]
#[verifier::external_body]
#[verifier::reject_recursive_types(T)]
pub struct ExMutex<T: ?Sized>(Mutex<T>);

/// `std::sync::MutexGuard`, opaque to the verifier.
#[verifier::external_type_specification]
#[verifier::external_body]
#[verifier::reject_recursive_types(T)]
pub struct ExMutexGuard<'a, T: ?Sized + 'a>(MutexGuard<'a, T>);

/// `std::sync::Condvar`, opaque to the verifier.
#[verifier::external_type_specification]
#[verifier::external_body]
pub struct ExCondvar(Condvar);

/// `Mutex::new`: a lock around `queue`. Nothing is claimed of the result.
#[verifier::external_body]
pub(crate) fn guard_queue<T>(queue: VecDeque<T>) -> (lock: Mutex<VecDeque<T>>) {
    Mutex::new(queue)
}

/// `Condvar::new`: a condition variable on which no thread waits.
#[verifier::external_body]
pub(crate) fn new_signal() -> (signal: Condvar) {
    Condvar::new()
}

/// `Arc::clone`: a second owner of the same allocation. The verifier sees
/// through an `Arc` to the value it owns, so the two are equal.
#[verifier::external_body]
pub(crate) fn share<T>(shared: &Arc<T>) -> (other: Arc<T>)
    ensures
        other == *shared,
{
    Arc::clone(shared)
}

/// `Mutex::lock`, unwrapped: blocks until the caller holds the lock. Nothing
/// is claimed of what the queue holds by then. A poisoned lock is fatal and
/// panics here. A lock is poisoned when a thread panics while it holds it;
/// under the channel's lock only `enqueue` and `poll` run, and neither panics.
/// The calling thread must not hold the lock already.
#[verifier::external_body]
pub(crate) fn acquire<'a, T>(lock: &'a Mutex<VecDeque<T>>) -> (guard: MutexGuard<
    'a,
    VecDeque<T>,
>) {
    lock.lock().unwrap()
}

/// `DerefMut::deref_mut` of a `MutexGuard`: the queue behind the lock, for as
/// long as the guard is borrowed. Nothing is claimed of what it holds.
#[verifier::external_body]
pub(crate) fn queue_of<'a, 'b, T>(guard: &'a mut MutexGuard<'b, VecDeque<T>>) -> (queue: &'a mut VecDeque<T>) {
    &mut **guard
}

/// `Condvar::wait_while`, unwrapped, with [`poll`] as its condition: `poll`
/// runs under the lock, and for as long as it asks to park the thread sleeps
/// on `signal`, giving up the lock in the same indivisible step, and polls
/// again once woken, for whatever reason. The call returns only after a
/// `poll` that did not ask to park, which by `poll`'s contract left the head
/// of the queue in the slot: that is all the contract claims. The call does
/// not return while the queue stays empty, and panics on a poisoned lock.
#[verifier::external_body]
pub(crate) fn wait_for_item<'a, T>(signal: &Condvar, guard: MutexGuard<'a, VecDeque<T>>) -> (out: (
    MutexGuard<'a, VecDeque<T>>,
    Option<T>,
))
    ensures
        out.1.is_some(),
{
    let mut slot = None;
    let guard = signal.wait_while(guard, |queue| poll(queue, &mut slot)).unwrap();
    (guard, slot)
}

/// `Condvar::notify_one`: wakes at most one thread that waits on `signal`.
#[verifier::external_body]
pub(crate) fn wake_one(signal: &Condvar) {
    signal.notify_one();
}

} // verus!
