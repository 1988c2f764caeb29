//! Maps keyed by a `u32` identity, held in `fnv`'s hash map.

use vstd::prelude::*;
use fnv::FnvHashMap;

verus! {

/// A map from device or object identities to values.
pub type IdMap<V> = FnvHashMap<u32, V>;

/// Declares `std::hash::BuildHasherDefault`, the hash builder that
/// `fnv::FnvHashMap` is made with, as an opaque type.
#[verifier::external_type_specification]
#[verifier::external_body]
#[verifier::reject_recursive_types(H)]
pub struct ExBuildHasherDefault<H>(std::hash::BuildHasherDefault<H>);

/// Declares `fnv::FnvHasher` as an opaque type.
#[verifier::external_type_specification]
#[verifier::external_body]
pub struct ExFnvHasher(fnv::FnvHasher);

/// Relies on `Default` for `fnv::FnvHashMap`: a new map holds no entry.
#[verifier::external_body]
pub(crate) fn id_map_new<V>() -> (r: IdMap<V>)
    ensures
        r@.dom() == Set::<u32>::empty(),
{
    FnvHashMap::default()
}

/// Relies on `HashMap::insert` under fnv's deterministic hasher: the key
/// maps to the new value afterwards, and every other entry is kept.
#[verifier::external_body]
pub(crate) fn id_map_insert<V>(m: &mut IdMap<V>, k: u32, v: V)
    ensures
        final(m)@ == old(m)@.insert(k, v),
{
    m.insert(k, v);
}

/// Relies on `HashMap::get` under fnv's deterministic hasher: the value
/// stored under the key, if any.
#[verifier::external_body]
pub(crate) fn id_map_get<V>(m: &IdMap<V>, k: u32) -> (r: Option<&V>)
    ensures
        match r {
            Some(v) => m@.contains_key(k) && *v == m@[k],
            None => !m@.contains_key(k),
        },
{
    m.get(&k)
}

/// Relies on `HashMap::keys` under fnv's deterministic hasher: every key
/// once, in an order that the map decides.
#[verifier::external_body]
pub(crate) fn id_map_keys<V>(m: &IdMap<V>) -> (r: Vec<u32>)
    ensures
        r@.to_set() == m@.dom(),
        r@.no_duplicates(),
{
    m.keys().copied().collect()
}

} // verus!
