//! Key validation: runs rules on every key of a map.
//!
//! The entrypoint is the [`Keys`] trait: `validate_keys` calls the given
//! function once per key.
use std::collections::{BTreeMap, HashMap};
use vstd::prelude::*;

use crate::error::PathComponentKind;

verus! {

/// `f` may be called on any key.
pub open spec fn callable_on_keys<K, F: FnMut(&K)>(f: F) -> bool {
    forall|k: &K| f.requires((k,))
}

/// Calls `f` on every key of `field`.
pub fn apply<T, K: PathComponentKind, F: FnMut(&K)>(field: &T, f: F) where T: Keys<K>
    requires
        callable_on_keys::<K, F>(f),
{
    field.validate_keys(f)
}

pub trait Keys<K: PathComponentKind> {
    /// Calls `f` on every key.
    fn validate_keys<F: FnMut(&K)>(&self, f: F)
        requires
            callable_on_keys::<K, F>(f),
    ;
}

/// Calls `HashMap::keys` and collects what it yields: every key of the map,
/// once each, in an unspecified order. The contract states only that one
/// reference is returned per entry.
#[verifier::external_body]
fn hash_map_keys<K, V>(map: &HashMap<K, V>) -> (r: Vec<&K>)
    ensures
        r@.len() == map.len(),
{
    map.keys().collect()
}

/// Calls `BTreeMap::keys` and collects what it yields: every key of the map,
/// once each, in increasing order. The contract states only that one
/// reference is returned per entry.
#[verifier::external_body]
fn btree_map_keys<K, V>(map: &BTreeMap<K, V>) -> (r: Vec<&K>)
    ensures
        r@.len() == map.len(),
{
    map.keys().collect()
}

/// Calls `f` on every key of `keys`, in order.
fn each_key<K, F: FnMut(&K)>(keys: Vec<&K>, mut f: F)
    requires
        callable_on_keys::<K, F>(f),
{
    let mut i: usize = 0;
    while i < keys.len()
        invariant
            callable_on_keys::<K, F>(f),
        decreases keys@.len() - i,
    {
        f(keys[i]);
        i = i + 1;
    }
}

impl<K, V> Keys<K> for HashMap<K, V> where K: PathComponentKind {
    fn validate_keys<F: FnMut(&K)>(&self, f: F) {
        each_key(hash_map_keys(self), f)
    }
}

impl<K, V> Keys<K> for BTreeMap<K, V> where K: PathComponentKind {
    fn validate_keys<F: FnMut(&K)>(&self, f: F) {
        each_key(btree_map_keys(self), f)
    }
}

} // verus!
