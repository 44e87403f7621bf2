//! A bounded, blocking first-in first-out queue for producer and consumer
//! threads, with a cooperative shutdown.
//!
//! [`queue::Queue`] is the queue itself. What it does under its lock is done
//! by [`buffer::Buffer`], whose every step is proved against the mathematical
//! [`model::Model`]; the laws of the queue are proved there for every order
//! in which threads may come. [`handle`] offers the queue to callers that hold
//! a handle which may be invalid, and [`driver`] lays out demonstration runs.

pub mod buffer;
pub mod driver;
pub mod handle;
pub mod model;
pub mod queue;
mod sync;

pub use crate::queue::Queue;
