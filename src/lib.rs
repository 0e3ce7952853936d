//! A multi-producer, multi-consumer in-process channel: an unbounded FIFO
//! queue shared by cloned sender and receiver handles, guarded by one lock
//! and one condition variable.
//!
//! `state` holds the core that every handle shares (the queue and the count
//! of live senders) and the decisions taken under the lock, verified against
//! a mathematical model. `laws` proves the channel's properties over that
//! model. `channel` holds the handles, which perform those decisions under
//! std's lock and wake blocked receivers.
//!
//! The handles are verified to call the operations of `state`, each with an
//! exact contract, but the state behind the lock is opaque to the verifier.
//! That a receive performs the model's receive step (never end-of-stream
//! while a sender remains) rests on std's `Condvar::wait_while`, which
//! returns only once `ChannelState::must_wait` is false.

pub mod channel;
pub mod laws;
pub mod state;

pub use channel::{new_channel, Receiver, Sender};
