//! A loader that batches keyed requests and shares their results.
//!
//! Callers ask for the value of a key, each on a request of its own or, by
//! way of the [`cache`], many on one. The requests wait in a shared
//! [`worker`] queue. A worker [`task`] drains the queue, cuts what it finds
//! into batches of bounded size, and answers every request of a batch with
//! what the backend loaded for its key.

pub mod buckets;
pub mod cache;
pub mod channel;
pub mod content;
pub mod key;
pub mod request;
pub mod task;
pub mod worker;
