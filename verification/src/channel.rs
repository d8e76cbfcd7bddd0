//! The request of the loader that hands its work over a channel: a key with
//! a oneshot reply, and nothing to share between waiters.

use vstd::prelude::*;
use tokio::sync::oneshot;
use crate::key::Key;
use crate::request::Reply;

verus! {

/// One caller's interest in the value of a key, answered on a oneshot
/// channel.
#[verifier::reject_recursive_types(V)]
#[verifier::reject_recursive_types(E)]
pub struct Request<K: Key, V: Send + Sync + Clone + 'static, E: Send + Sync + Clone + 'static> {
    pub(crate) key: K,
    pub(crate) tx: oneshot::Sender<Reply<V, E>>,
}

impl<K: Key, V: Send + Sync + Clone + 'static, E: Send + Sync + Clone + 'static> Request<K, V, E> {
    /// The key that the request asks for.
    pub closed spec fn spec_key(self) -> K {
        self.key
    }

    /// A request for `key`, and the receiver on which its caller waits.
    pub fn new(key: K) -> (pair: (Request<K, V, E>, oneshot::Receiver<Reply<V, E>>))
        ensures
            pair.0.spec_key() == key,
    {
        let (tx, rx) = oneshot::channel();
        (Request { key, tx }, rx)
    }

    /// The key that the request asks for.
    pub fn key(&self) -> (key: &K)
        ensures
            *key == self.spec_key(),
    {
        &self.key
    }

    /// Answers the request with `reply` and uses it up. A reply that nobody
    /// waits for any more is dropped in silence.
    pub fn resolve(self, reply: Reply<V, E>) {
        let _ = self.tx.send(reply);
    }
}

} // verus!
