//! A single-node priority message queue.
//!
//! Producers hand in a payload with an integer priority; consumers take out
//! the pending message of highest priority, oldest first among equals. Every
//! message has a time-to-live, and a periodic sweep drops the ones that have
//! outlived it.
//!
//! The crate holds the queue's rules and state. It never touches the
//! filesystem or the network itself: every operation that needs the store
//! says what is to be written, read or deleted, and takes the outcome back
//! as a plain value.

pub mod config;
pub mod controller;
pub mod clock;
pub mod message_handler;
pub mod message_id;
pub mod priority_index;
pub mod queue_state;
pub mod store;
