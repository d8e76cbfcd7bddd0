//! Load requests and the reply channels that answer them.
//!
//! A [`Request`] is one caller's interest in the value of a key. It owns the
//! sending half of a reply channel; the caller keeps the receiving half and
//! waits on it. A request is consumed when it is resolved, so it is answered
//! at most once.

use vstd::prelude::*;
use vstd::std_specs::convert::FromSpecImpl;
use std::ops::Deref;
use std::sync::Arc;
use tokio::sync::{oneshot, watch};
use crate::key::Key;

verus! {

/// What a caller finally receives for a key: the value, the news that the
/// backend holds none, or the backend's error.
pub type Reply<V, E> = Result<Option<Arc<V>>, E>;

/// `tokio::sync::oneshot::Sender`, carried as an opaque value.
#[verifier::external_type_specification]
#[verifier::external_body]
#[verifier::reject_recursive_types(T)]
pub struct ExOneshotSender<T>(oneshot::Sender<T>);

/// `tokio::sync::oneshot::Receiver`, carried as an opaque value.
#[verifier::external_type_specification]
#[verifier::external_body]
#[verifier::reject_recursive_types(T)]
pub struct ExOneshotReceiver<T>(oneshot::Receiver<T>);

/// `tokio::sync::oneshot::error::RecvError`, which the receiver yields as a
/// future when its sender is gone.
#[verifier::external_type_specification]
#[verifier::external_body]
pub struct ExOneshotRecvError(oneshot::error::RecvError);

/// `tokio::sync::watch::Sender`, carried as an opaque value.
#[verifier::external_type_specification]
#[verifier::external_body]
#[verifier::reject_recursive_types(T)]
pub struct ExWatchSender<T>(watch::Sender<T>);

/// `tokio::sync::watch::Receiver`, carried as an opaque value.
#[verifier::external_type_specification]
#[verifier::external_body]
#[verifier::reject_recursive_types(T)]
pub struct ExWatchReceiver<T>(watch::Receiver<T>);

/// `tokio::sync::watch::Ref`, the read guard that `borrow` gives.
#[verifier::external_type_specification]
#[verifier::external_body]
#[verifier::reject_recursive_types(T)]
pub struct ExWatchRef<'a, T>(watch::Ref<'a, T>);

/// `tokio::sync::oneshot::channel`: a fresh channel for a single value.
/// Nothing is claimed of the two halves.
pub assume_specification<T>[ oneshot::channel::<T> ]() -> (halves: (
    oneshot::Sender<T>,
    oneshot::Receiver<T>,
))
;

/// `tokio::sync::oneshot::Sender::is_closed`: whether the receiver has hung
/// up. The answer depends on what the other end did, so nothing is claimed.
pub assume_specification<T>[ oneshot::Sender::<T>::is_closed ](tx: &oneshot::Sender<T>) -> (closed:
    bool)
;

/// `tokio::sync::oneshot::Sender::send`: tries to send the value. When the
/// receiver is gone the value that could not be sent comes back unchanged.
pub assume_specification<T>[ oneshot::Sender::<T>::send ](tx: oneshot::Sender<T>, t: T) -> (sent:
    Result<(), T>)
    ensures
        sent matches Err(back) ==> back == t,
;

/// `tokio::sync::watch::channel`: a fresh watch channel that starts out
/// holding `init`. Nothing is claimed of the two halves.
pub assume_specification<T>[ watch::channel::<T> ](init: T) -> (halves: (
    watch::Sender<T>,
    watch::Receiver<T>,
))
;

/// `tokio::sync::watch::Sender::is_closed`: whether every receiver has been
/// dropped. The answer depends on what the other ends did, so nothing is
/// claimed.
pub assume_specification<T>[ watch::Sender::<T>::is_closed ](tx: &watch::Sender<T>) -> (closed:
    bool)
;

/// `tokio::sync::watch::Receiver::borrow`: a read guard on the value that
/// the channel holds at the moment of the call. Nothing is claimed of it.
pub assume_specification<T>[ watch::Receiver::<T>::borrow ](rx: &watch::Receiver<T>) -> (current:
    watch::Ref<'_, T>)
;

/// `Deref::deref` of `tokio::sync::watch::Ref`: the guarded value. Nothing
/// is claimed of it.
pub assume_specification<'a, 'b, T>[ <watch::Ref<'a, T> as core::ops::Deref>::deref ](
    current: &'b watch::Ref<'a, T>,
) -> (value: &'b T)
;

/// `Clone::clone` of `tokio::sync::watch::Receiver`: one more receiver of
/// the same channel. Nothing is claimed of it.
pub assume_specification<T>[ <watch::Receiver<T> as Clone>::clone ](
    rx: &watch::Receiver<T>,
) -> (other: watch::Receiver<T>)
;

/// `Arc::clone`: one more pointer to the same allocation, and so to the same
/// value.
#[verifier::external_body]
pub(crate) fn share<V>(value: &Arc<V>) -> (shared: Arc<V>)
    ensures
        shared == *value,
{
    Arc::clone(value)
}

/// Whether `copy` may be what cloning `reply` gives: the same value or
/// absence, or a clone of the same error.
pub open spec fn reply_cloned<V, E: Clone>(reply: Reply<V, E>, copy: Reply<V, E>) -> bool {
    match reply {
        Ok(found) => copy == Ok::<Option<Arc<V>>, E>(found),
        Err(error) => copy matches Err(other) && cloned(error, other),
    }
}

/// Clones a reply: the value is shared, not copied, and an error is cloned.
pub fn clone_reply<V, E: Clone>(reply: &Reply<V, E>) -> (copy: Reply<V, E>)
    ensures
        reply_cloned(*reply, copy),
{
    match reply {
        Ok(Some(value)) => Ok(Some(share(value))),
        Ok(None) => Ok(None),
        Err(error) => Err(error.clone()),
    }
}

/// The state of a watched load. It starts `Pending`, is settled once, and is
/// `Ready` with the same reply from then on.
pub enum LoadState<V: Send + Sync + Clone + 'static, E: Send + Sync + Clone + 'static> {
    Ready(Reply<V, E>),
    Pending,
}

impl<V: Send + Sync + Clone + 'static, E: Send + Sync + Clone + 'static> LoadState<V, E> {
    /// The state after an attempt to settle it with `reply`: a pending state
    /// becomes ready with that reply, a ready one stays as it is.
    pub open spec fn settled(self, reply: Reply<V, E>) -> Self {
        match self {
            LoadState::Pending => LoadState::Ready(reply),
            LoadState::Ready(first) => LoadState::Ready(first),
        }
    }

    /// The reply that a waiter may take away, if there is one yet.
    pub open spec fn outcome(self) -> Option<Reply<V, E>> {
        match self {
            LoadState::Ready(reply) => Some(reply),
            LoadState::Pending => None,
        }
    }

    /// Settles the state with `reply` unless it is settled already, and says
    /// whether it changed.
    pub fn settle(&mut self, reply: Reply<V, E>) -> (changed: bool)
        ensures
            changed == (*old(self) is Pending),
            *final(self) == old(self).settled(reply),
    {
        match self {
            LoadState::Pending => {
                *self = LoadState::Ready(reply);
                true
            },
            LoadState::Ready(_) => false,
        }
    }

    /// A load is settled at most once: the first reply stays, whatever is
    /// tried after it.
    pub proof fn lemma_settled_once(self, first: Reply<V, E>, second: Reply<V, E>)
        ensures
            self.settled(first) is Ready,
            self.settled(first).settled(second) == self.settled(first),
            self is Pending ==> self.settled(first).outcome() == Some(first),
            self is Ready ==> self.settled(first) == self,
    {
    }

    /// Hands out a clone of the reply of a ready state; a pending state
    /// gives `None` and the waiter goes on waiting.
    pub fn ready(&self) -> (reply: Option<Reply<V, E>>)
        ensures
            match self.outcome() {
                Some(first) => reply matches Some(copy) && reply_cloned(first, copy),
                None => reply is None,
            },
    {
        match self {
            LoadState::Ready(reply) => Some(clone_reply(reply)),
            LoadState::Pending => None,
        }
    }
}

/// `tokio::sync::watch::Sender::send_if_modified`, with a closure that
/// settles the watched state. The closure runs once under the channel's
/// write lock; receivers are woken when it reports a change, which is what
/// the call returns. Nothing is claimed of the result, since other senders
/// of the channel may have settled the state before.
#[verifier::external_body]
fn watch_settle<V: Send + Sync + Clone + 'static, E: Send + Sync + Clone + 'static>(
    tx: &watch::Sender<LoadState<V, E>>,
    reply: Reply<V, E>,
) -> (changed: bool) {
    tx.send_if_modified(move |state| state.settle(reply))
}

/// The receiving half of a watched load. It can be cloned, and every clone
/// sees the same final reply, also one made after the load was settled.
#[derive(Clone)]
#[verifier::reject_recursive_types(V)]
#[verifier::reject_recursive_types(E)]
pub struct WatchReceiver<V: Send + Sync + Clone + 'static, E: Send + Sync + Clone + 'static>(
    watch::Receiver<LoadState<V, E>>,
);

/// The receiving half of a load with a single waiter.
#[verifier::reject_recursive_types(V)]
#[verifier::reject_recursive_types(E)]
pub struct OneshotReceiver<V: Send + Sync + Clone + 'static, E: Send + Sync + Clone + 'static>(
    oneshot::Receiver<Reply<V, E>>,
);

impl<V: Send + Sync + Clone + 'static, E: Send + Sync + Clone + 'static> WatchReceiver<V, E> {
    /// The channel half that this receiver wraps.
    pub closed spec fn channel(self) -> watch::Receiver<LoadState<V, E>> {
        self.0
    }

    /// Looks at the load without waiting: the reply if the load is settled,
    /// `None` while it is pending.
    pub fn try_recv(&self) -> (reply: Option<Reply<V, E>>) {
        let current = self.0.borrow();
        current.deref().ready()
    }

    /// Gives up the wrapper for the channel half inside, on which a task can
    /// wait for a change.
    pub fn into_inner(self) -> (rx: watch::Receiver<LoadState<V, E>>)
        ensures
            rx == self.channel(),
    {
        self.0
    }
}

impl<V: Send + Sync + Clone + 'static, E: Send + Sync + Clone + 'static> OneshotReceiver<V, E> {
    /// The channel half that this receiver wraps.
    pub closed spec fn channel(self) -> oneshot::Receiver<Reply<V, E>> {
        self.0
    }

    /// Gives up the wrapper for the channel half inside, on which a task can
    /// wait for the reply.
    pub fn into_inner(self) -> (rx: oneshot::Receiver<Reply<V, E>>)
        ensures
            rx == self.channel(),
    {
        self.0
    }
}

impl<V: Send + Sync + Clone + 'static, E: Send + Sync + Clone + 'static> From<
    watch::Receiver<LoadState<V, E>>,
> for WatchReceiver<V, E> {
    fn from(rx: watch::Receiver<LoadState<V, E>>) -> (receiver: Self)
        ensures
            receiver.channel() == rx,
    {
        WatchReceiver(rx)
    }
}

impl<V: Send + Sync + Clone + 'static, E: Send + Sync + Clone + 'static> FromSpecImpl<
    watch::Receiver<LoadState<V, E>>,
> for WatchReceiver<V, E> {
    open spec fn obeys_from_spec() -> bool {
        true
    }

    closed spec fn from_spec(rx: watch::Receiver<LoadState<V, E>>) -> Self {
        WatchReceiver(rx)
    }
}

impl<V: Send + Sync + Clone + 'static, E: Send + Sync + Clone + 'static> From<
    oneshot::Receiver<Reply<V, E>>,
> for OneshotReceiver<V, E> {
    fn from(rx: oneshot::Receiver<Reply<V, E>>) -> (receiver: Self)
        ensures
            receiver.channel() == rx,
    {
        OneshotReceiver(rx)
    }
}

impl<V: Send + Sync + Clone + 'static, E: Send + Sync + Clone + 'static> FromSpecImpl<
    oneshot::Receiver<Reply<V, E>>,
> for OneshotReceiver<V, E> {
    open spec fn obeys_from_spec() -> bool {
        true
    }

    closed spec fn from_spec(rx: oneshot::Receiver<Reply<V, E>>) -> Self {
        OneshotReceiver(rx)
    }
}

/// One caller's interest in the value of a key, with the sending half of the
/// channel on which the caller waits.
#[allow(inconsistent_fields)]
#[verifier::reject_recursive_types(V)]
#[verifier::reject_recursive_types(E)]
pub enum Request<K: Key, V: Send + Sync + Clone + 'static, E: Send + Sync + Clone + 'static> {
    /// Answered through a watch channel, which any number of waiters share.
    Watch { key: K, tx: watch::Sender<LoadState<V, E>> },
    /// Answered through a oneshot channel, for exactly one waiter.
    Oneshot { key: K, tx: oneshot::Sender<Reply<V, E>> },
}

impl<K: Key, V: Send + Sync + Clone + 'static, E: Send + Sync + Clone + 'static> Request<K, V, E> {
    /// The key that the request asks for.
    pub open spec fn spec_key(self) -> K {
        match self {
            Request::Watch { key, .. } => key,
            Request::Oneshot { key, .. } => key,
        }
    }

    /// A request for `key` that a single waiter awaits.
    pub fn new_oneshot(key: K) -> (pair: (Request<K, V, E>, OneshotReceiver<V, E>))
        ensures
            pair.0 is Oneshot,
            pair.0.spec_key() == key,
    {
        let (tx, rx) = oneshot::channel();
        (Request::Oneshot { key, tx }, OneshotReceiver(rx))
    }

    /// A request for `key` whose load starts out pending and which any
    /// number of waiters may watch.
    pub fn new_watch(key: K) -> (pair: (Request<K, V, E>, WatchReceiver<V, E>))
        ensures
            pair.0 is Watch,
            pair.0.spec_key() == key,
    {
        let (tx, rx) = watch::channel(LoadState::Pending);
        (Request::Watch { key, tx }, WatchReceiver(rx))
    }

    /// The key that the request asks for.
    pub fn key(&self) -> (key: &K)
        ensures
            *key == self.spec_key(),
    {
        match self {
            Request::Watch { key, .. } => key,
            Request::Oneshot { key, .. } => key,
        }
    }

    /// Answers the request with `reply` and uses it up. A request whose
    /// waiters have all gone away is dropped in silence; a watched load that
    /// was settled before keeps its first reply.
    pub fn resolve(self, reply: Reply<V, E>) {
        match self {
            Request::Watch { tx, .. } => {
                if !tx.is_closed() {
                    let _ = watch_settle(&tx, reply);
                }
            },
            Request::Oneshot { tx, .. } => {
                if !tx.is_closed() {
                    let _ = tx.send(reply);
                }
            },
        }
    }
}

} // verus!
