//! A minimal multi-producer, single-consumer blocking channel.
//!
//! Any number of [`Sender`] handles append items to one shared FIFO queue and
//! a single [`Receiver`] removes them, sleeping while the queue is empty.
//! The two critical sections ([`enqueue`] and [`poll`]) are verified against a
//! sequence model; the laws of that model are stated in `model`.

pub mod channel;
pub mod model;
pub mod queue;
pub mod sync;

pub use channel::{channel, Receiver, Sender};
pub use queue::{empty_queue, enqueue, poll};
