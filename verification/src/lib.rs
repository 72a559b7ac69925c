//! A bounded, blocking priority queue: producers wait while it is full,
//! consumers wait while it is empty, and the oldest item always leaves first.
//!
//! - [`item`]: what the queue holds, and the order of priorities.
//! - [`model`]: the queue as a multiset with a capacity, and the laws that
//!   follow for every sequence of inserts and extractions.
//! - [`heap`]: the container, a binary heap of bounded size.
//! - [`monitor`]: the queue that threads share, and what each of its
//!   operations does once it holds the lock.
//! - [`sync`]: the lock and the condition variable of the standard library.
//! - [`error`]: the errors.

pub mod error;
pub mod heap;
pub mod item;
pub mod model;
pub mod monitor;
pub mod sync;
