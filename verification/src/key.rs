//! The capability that a value needs to serve as the key of a load.

use vstd::prelude::*;
use vstd::std_specs::hash::obeys_key_model;
use std::hash::Hash;

verus! {

/// What a value must offer to identify a load: it can be hashed, ordered,
/// compared, cloned and moved between threads.
pub trait Key: Send + Sync + Hash + Ord + Eq + Clone + 'static {
}

impl<T> Key for T where T: Send + Sync + Hash + Ord + Eq + Clone + 'static {
}

/// `Clone::clone` on a key. A key type that obeys the hash-table key model
/// clones to a value identical to the key; of other key types nothing is
/// claimed.
#[verifier::external_body]
pub(crate) fn clone_key<K: Key>(key: &K) -> (copy: K)
    ensures
        obeys_key_model::<K>() ==> copy == *key,
{
    key.clone()
}

} // verus!
