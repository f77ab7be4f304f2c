//! The channel as a sequence of events under the lock.
//!
//! `after_send`, `head` and `after_poll` say what one critical section does to
//! the queue; `enqueue` and `poll` are proved to do just that. A `History`
//! follows a channel through any sequence of critical sections, and the
//! lemmas state what holds of every such sequence.

use vstd::prelude::*;

verus! {

/// The queue after a send: the item stands last.
pub open spec fn after_send<T>(queue: Seq<T>, item: T) -> Seq<T> {
    queue.push(item)
}

/// What a poll hands out: the oldest item, if there is one.
pub open spec fn head<T>(queue: Seq<T>) -> Option<T> {
    if queue.len() == 0 {
        None
    } else {
        Some(queue[0])
    }
}

/// The queue after a poll: without its oldest item, if there was one.
pub open spec fn after_poll<T>(queue: Seq<T>) -> Seq<T> {
    if queue.len() == 0 {
        queue
    } else {
        queue.drop_first()
    }
}

/// One critical section. The lock admits one at a time, so all that happens
/// to a channel is a sequence of these.
pub enum Event<T> {
    /// A producer sent this item. Which handle it used is of no account: all
    /// of them feed the one queue.
    Send(T),
    /// The consumer polled the queue.
    Poll,
}

/// A channel as an observer of every critical section would see it.
pub struct History<T> {
    /// What is waiting in the queue, oldest first.
    pub queue: Seq<T>,
    /// Every item sent so far, by whichever handle, in the order of the sends.
    pub sent: Seq<T>,
    /// Every item handed to the consumer so far, in the order it got them.
    pub delivered: Seq<T>,
}

/// The history of a fresh channel.
pub open spec fn fresh<T>() -> History<T> {
    History { queue: Seq::empty(), sent: Seq::empty(), delivered: Seq::empty() }
}

/// The history after one more critical section. A poll of an empty queue
/// delivers nothing: the consumer parks.
pub open spec fn step<T>(before: History<T>, event: Event<T>) -> History<T> {
    match event {
        Event::Send(item) => History {
            queue: after_send(before.queue, item),
            sent: before.sent.push(item),
            delivered: before.delivered,
        },
        Event::Poll => History {
            queue: after_poll(before.queue),
            sent: before.sent,
            delivered: match head(before.queue) {
                Some(item) => before.delivered.push(item),
                None => before.delivered,
            },
        },
    }
}

/// The history of a channel on which `events` took place, starting from `start`.
pub open spec fn run_from<T>(start: History<T>, events: Seq<Event<T>>) -> History<T>
    decreases events.len(),
{
    if events.len() == 0 {
        start
    } else {
        step(run_from(start, events.drop_last()), events.last())
    }
}

/// The history of a fresh channel on which `events` took place.
pub open spec fn run<T>(events: Seq<Event<T>>) -> History<T> {
    run_from(fresh(), events)
}

/// One send for each of `items`, in their order.
pub open spec fn sends<T>(items: Seq<T>) -> Seq<Event<T>> {
    Seq::new(items.len(), |i: int| Event::Send(items[i]))
}

/// `n` polls in a row.
pub open spec fn polls<T>(n: nat) -> Seq<Event<T>> {
    Seq::new(n, |i: int| Event::Poll)
}

/// Conservation: whatever the order of sends and polls, what was sent is what
/// was delivered followed by what still waits. Nothing is lost, nothing is
/// delivered twice, and nothing overtakes.
pub proof fn lemma_conservation<T>(events: Seq<Event<T>>)
    ensures
        run(events).sent == run(events).delivered + run(events).queue,
        run(events).sent.len() == run(events).delivered.len() + run(events).queue.len(),
    decreases events.len(),
{
    if events.len() == 0 {
        assert(run(events).sent =~= run(events).delivered + run(events).queue);
    } else {
        lemma_conservation(events.drop_last());
        let before = run(events.drop_last());
        let after = run(events);
        assert(after == step(before, events.last()));
        assert(after.sent =~= after.delivered + after.queue);
    }
}

/// No loss: once the consumer has been handed as many items as were sent, it
/// has been handed exactly the items sent, each as often as it was sent, and
/// the queue is empty.
pub proof fn lemma_no_loss<T>(events: Seq<Event<T>>)
    requires
        run(events).delivered.len() == run(events).sent.len(),
    ensures
        run(events).delivered == run(events).sent,
        run(events).delivered.to_multiset() == run(events).sent.to_multiset(),
        run(events).sent.no_duplicates() ==> run(events).delivered.no_duplicates(),
        run(events).queue == Seq::<T>::empty(),
{
    lemma_conservation(events);
    let h = run(events);
    assert(h.queue =~= Seq::<T>::empty());
    assert(h.delivered =~= h.delivered + h.queue);
}

/// The consumer is handed only what was sent, and in the order of the sends:
/// at every moment the items delivered are the first of the items sent.
pub proof fn lemma_delivered_is_prefix<T>(events: Seq<Event<T>>)
    ensures
        run(events).delivered.len() <= run(events).sent.len(),
        run(events).delivered == run(events).sent.take(run(events).delivered.len() as int),
{
    lemma_conservation(events);
    let h = run(events);
    assert(h.delivered =~= (h.delivered + h.queue).take(h.delivered.len() as int));
}

/// Sends alone: every item waits in the queue, in the order of the sends.
pub proof fn lemma_sends<T>(start: History<T>, items: Seq<T>)
    ensures
        run_from(start, sends(items)).queue == start.queue + items,
        run_from(start, sends(items)).sent == start.sent + items,
        run_from(start, sends(items)).delivered == start.delivered,
    decreases items.len(),
{
    let after = run_from(start, sends(items));
    if items.len() == 0 {
        assert(after.queue =~= start.queue + items);
        assert(after.sent =~= start.sent + items);
    } else {
        lemma_sends(start, items.drop_last());
        assert(sends(items).drop_last() =~= sends(items.drop_last()));
        assert(sends(items).last() == Event::Send(items.last()));
        assert(after.queue =~= start.queue + items);
        assert(after.sent =~= start.sent + items);
    }
}

/// Polls alone, no more of them than items wait: the consumer is handed the
/// oldest `n` items of the queue, oldest first, and the others keep waiting.
pub proof fn lemma_polls<T>(start: History<T>, n: nat)
    requires
        n <= start.queue.len(),
    ensures
        run_from(start, polls(n)).queue == start.queue.skip(n as int),
        run_from(start, polls(n)).sent == start.sent,
        run_from(start, polls(n)).delivered == start.delivered + start.queue.take(n as int),
    decreases n,
{
    let after = run_from(start, polls::<T>(n));
    if n == 0 {
        assert(after.queue =~= start.queue.skip(0));
        assert(after.delivered =~= start.delivered + start.queue.take(0));
    } else {
        let m = (n - 1) as nat;
        lemma_polls(start, m);
        assert(polls::<T>(n).drop_last() =~= polls::<T>(m));
        assert(polls::<T>(n).last() == Event::<T>::Poll);
        let before = run_from(start, polls::<T>(m));
        assert(after == step(before, Event::Poll));
        assert(before.queue.len() > 0);
        assert(before.queue[0] == start.queue[m as int]);
        assert(after.queue =~= start.queue.skip(n as int));
        assert(after.delivered =~= start.delivered + start.queue.take(n as int));
    }
}

/// A polling consumer of an empty queue is handed nothing and has to park,
/// however often it polls, until a send takes place.
pub proof fn lemma_empty_polls_park<T>(start: History<T>, n: nat)
    requires
        start.queue.len() == 0,
    ensures
        run_from(start, polls(n)) == start,
    decreases n,
{
    if n > 0 {
        let m = (n - 1) as nat;
        lemma_empty_polls_park(start, m);
        assert(polls::<T>(n).drop_last() =~= polls::<T>(m));
        assert(polls::<T>(n).last() == Event::<T>::Poll);
    }
}

/// Events one after the other: running `first + second` is running `second`
/// from where `first` led.
pub proof fn lemma_run_concat<T>(start: History<T>, first: Seq<Event<T>>, second: Seq<Event<T>>)
    ensures
        run_from(start, first + second) == run_from(run_from(start, first), second),
    decreases second.len(),
{
    if second.len() == 0 {
        assert(first + second =~= first);
    } else {
        lemma_run_concat(start, first, second.drop_last());
        assert((first + second).drop_last() =~= first + second.drop_last());
        assert((first + second).last() == second.last());
    }
}

/// First in, first out: when `items` are sent in that order on a fresh
/// channel and the consumer then receives as many times as items were sent,
/// it is handed exactly `items`, in that order, and the queue is empty again.
pub proof fn lemma_fifo<T>(items: Seq<T>)
    ensures
        run(sends(items) + polls(items.len())).delivered == items,
        run(sends(items) + polls(items.len())).queue == Seq::<T>::empty(),
{
    let n = items.len();
    lemma_run_concat(fresh(), sends(items), polls::<T>(n));
    lemma_sends(fresh(), items);
    let mid = run_from(fresh(), sends(items));
    assert(mid.queue =~= items);
    lemma_polls(mid, n);
    let end = run_from(mid, polls::<T>(n));
    assert(end.delivered =~= items);
    assert(end.queue =~= Seq::<T>::empty());
}

} // verus!
