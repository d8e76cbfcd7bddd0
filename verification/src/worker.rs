//! The queue of pending requests that producers fill and worker tasks drain.

use vstd::prelude::*;
use vstd::rwlock::{RwLock, RwLockPredicate};
use crate::key::Key;
use crate::request::Request;

verus! {

/// The lock's predicate on the queued requests: any queue will do.
pub struct AnyQueue;

impl<K: Key, V: Send + Sync + Clone + 'static, E: Send + Sync + Clone + 'static> RwLockPredicate<
    Vec<Request<K, V, E>>,
> for AnyQueue {
    open spec fn inv(self, queued: Vec<Request<K, V, E>>) -> bool {
        true
    }
}

/// The shared queue of requests that no worker has taken yet. Producers push
/// onto it; a worker drains all of it at once, so each request goes to
/// exactly one worker.
#[verifier::reject_recursive_types(K)]
#[verifier::reject_recursive_types(V)]
#[verifier::reject_recursive_types(E)]
pub struct QueueHandle<K: Key, V: Send + Sync + Clone + 'static, E: Send + Sync + Clone + 'static> {
    queue: RwLock<Vec<Request<K, V, E>>, AnyQueue>,
}

impl<K: Key, V: Send + Sync + Clone + 'static, E: Send + Sync + Clone + 'static> QueueHandle<
    K,
    V,
    E,
> {
    /// An empty queue.
    pub fn new() -> (handle: Self) {
        QueueHandle { queue: RwLock::new(Vec::new(), Ghost(AnyQueue)) }
    }

    /// Queues `request` behind those that wait already.
    pub fn push(&self, request: Request<K, V, E>) {
        let (mut queued, guard) = self.queue.acquire_write();
        queued.push(request);
        guard.release_write(queued);
    }

    /// Moves every request that is queued at this moment to the end of
    /// `requests`, in the order in which they were pushed, and leaves the
    /// queue empty. What `requests` held before stays in front.
    pub fn collect_queue(&self, requests: &mut Vec<Request<K, V, E>>)
        ensures
            old(requests)@.is_prefix_of(final(requests)@),
    {
        let (mut queued, guard) = self.queue.acquire_write();
        requests.append(&mut queued);
        guard.release_write(queued);
    }
}

} // verus!
