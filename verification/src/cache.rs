//! The cache that lets concurrent callers for one key share one load.

use vstd::prelude::*;
use vstd::std_specs::hash::obeys_key_model;
use tokio::sync::watch;
use crate::key::{clone_key, Key};
use crate::request::{LoadState, Request, WatchReceiver};

verus! {

/// `flurry::HashMap`, carried as an opaque value.
#[verifier::external_type_specification]
#[verifier::external_body]
#[verifier::reject_recursive_types(K)]
#[verifier::reject_recursive_types(V)]
#[verifier::reject_recursive_types(S)]
pub struct ExConcurrentMap<K, V, S>(flurry::HashMap<K, V, S>);

/// `flurry::DefaultHashBuilder`, the hasher of a map made by `new`.
#[verifier::external_type_specification]
#[verifier::external_body]
pub struct ExHashBuilder(flurry::DefaultHashBuilder);

/// `flurry::HashMap::new`: an empty concurrent map.
pub assume_specification<K, V>[ flurry::HashMap::<K, V>::new ]() -> (map: flurry::HashMap<K, V>)
;

/// `flurry::HashMap::get` under a guard of the same map: a clone of the
/// receiver stored under `key`, if the map holds one at the moment of the
/// call. Other threads may fill the map at any time, so nothing is claimed of
/// the result.
#[verifier::external_body]
fn lookup<K: Key, V: Send + Sync + Clone + 'static, E: Send + Sync + Clone + 'static>(
    data: &flurry::HashMap<K, watch::Receiver<LoadState<V, E>>>,
    key: &K,
) -> (stored: Option<watch::Receiver<LoadState<V, E>>>) {
    data.get(key, &data.guard()).cloned()
}

/// `flurry::HashMap::try_insert` under a guard of the same map: stores `rx`
/// under `key` unless the key is taken. `Ok` holds a clone of the receiver
/// that was stored, `Err` a clone of the one that another caller stored
/// before. Which of the two comes depends on the other threads, so nothing
/// is claimed of the result.
#[verifier::external_body]
fn insert_if_absent<K: Key, V: Send + Sync + Clone + 'static, E: Send + Sync + Clone + 'static>(
    data: &flurry::HashMap<K, watch::Receiver<LoadState<V, E>>>,
    key: K,
    rx: watch::Receiver<LoadState<V, E>>,
) -> (stored: Result<watch::Receiver<LoadState<V, E>>, watch::Receiver<LoadState<V, E>>>) {
    match data.try_insert(key, rx, &data.guard()) {
        Ok(inserted) => Ok(inserted.clone()),
        Err(taken) => Err(taken.current.clone()),
    }
}

/// For each key the receiver of the one load that serves all callers. An
/// entry is made by the first caller for its key and stays for good, so a
/// load that was settled is served from the cache from then on.
#[verifier::reject_recursive_types(K)]
#[verifier::reject_recursive_types(V)]
#[verifier::reject_recursive_types(E)]
pub struct LoadCache<K: Key, V: Send + Sync + Clone + 'static, E: Send + Sync + Clone + 'static> {
    data: flurry::HashMap<K, watch::Receiver<LoadState<V, E>>>,
}

impl<K: Key, V: Send + Sync + Clone + 'static, E: Send + Sync + Clone + 'static> LoadCache<
    K,
    V,
    E,
> {
    /// An empty cache.
    pub fn new() -> Self {
        LoadCache { data: flurry::HashMap::new() }
    }

    /// What a caller gets once the map has answered its attempt to enter the
    /// receiver of a new `request`. The caller that entered it gets the
    /// request, to enqueue. A caller that found the key taken gets no
    /// request and the receiver that was there before.
    pub fn claim(
        request: Request<K, V, E>,
        entered: Result<watch::Receiver<LoadState<V, E>>, watch::Receiver<LoadState<V, E>>>,
    ) -> (out: (WatchReceiver<V, E>, Option<Request<K, V, E>>))
        ensures
            match entered {
                Ok(stored) => out.0.channel() == stored && out.1 == Some(request),
                Err(current) => out.0.channel() == current && out.1 is None,
            },
    {
        match entered {
            Ok(stored) => (WatchReceiver::from(stored), Some(request)),
            Err(current) => (WatchReceiver::from(current), None),
        }
    }

    /// The receiver of the load for `key`, and with it a new request if this
    /// caller is the one that has to enqueue it.
    ///
    /// A caller that finds an entry joins that load and gets no request. A
    /// caller that finds none makes a request and tries to enter its
    /// receiver. If it wins it gets the request, which it must enqueue. If
    /// another caller was faster, the new request is dropped and the caller
    /// joins the winner's load: the entry that a second look would find,
    /// since entries are never removed.
    pub fn get_or_create(&self, key: &K) -> (out: (WatchReceiver<V, E>, Option<Request<K, V, E>>))
        ensures
            out.1 matches Some(request) ==> {
                &&& request is Watch
                &&& obeys_key_model::<K>() ==> request.spec_key() == *key
            },
    {
        if let Some(rx) = lookup(&self.data, key) {
            return (WatchReceiver::from(rx), None);
        }
        let (request, receiver) = Request::new_watch(clone_key(key));
        let entered = insert_if_absent(&self.data, clone_key(key), receiver.into_inner());
        Self::claim(request, entered)
    }
}

} // verus!
