//! Key-to-location store abstraction and its in-memory variant.
//!
//! The store maps an unsigned 64-bit needle key to the [`NeedleValue`]
//! describing where that needle lives in the volume's data log.  The trait
//! leaves room for alternative backing stores; the one variant provided
//! keeps the whole map in memory.

use std::collections::HashMap;
use vstd::prelude::*;

verus! {

broadcast use vstd::std_specs::hash::group_hash_axioms;

/// Where a needle lives in its volume's append-only data log.
///
/// An `offset` of zero is reserved as the tombstone marker; any positive
/// offset denotes a valid physical position.  `size` is the payload byte
/// length recorded at write time and carries no independent meaning when
/// the offset is zero.
#[derive(Copy, Clone, Debug, PartialEq, Eq, Structural)]
pub struct NeedleValue {
    pub offset: u32,
    pub size: u32,
}

/// Capability set of a key-to-location store: upsert, remove, lookup.
///
/// All three operations are infallible in the in-memory variant; a
/// disk-backed variant would extend the contract with a fallible result.
pub trait NeedleValueMap {
    /// The mathematical map held by the store.
    spec fn contents(&self) -> Map<u64, NeedleValue>;

    /// Upserts `value` under `key`, returning the previous value if any.
    fn set(&mut self, key: u64, value: NeedleValue) -> (prev: Option<NeedleValue>)
        ensures
            final(self).contents() == old(self).contents().insert(key, value),
            prev == (if old(self).contents().contains_key(key) {
                Some(old(self).contents()[key])
            } else {
                None::<NeedleValue>
            }),
    ;

    /// Removes the mapping under `key`, returning the removed value if any.
    fn delete(&mut self, key: u64) -> (removed: Option<NeedleValue>)
        ensures
            final(self).contents() == old(self).contents().remove(key),
            removed == (if old(self).contents().contains_key(key) {
                Some(old(self).contents()[key])
            } else {
                None::<NeedleValue>
            }),
    ;

    /// Pure lookup of the value under `key`.
    fn get(&self, key: u64) -> (value: Option<NeedleValue>)
        ensures
            value == (if self.contents().contains_key(key) {
                Some(self.contents()[key])
            } else {
                None::<NeedleValue>
            }),
    ;
}

/// The in-memory backing store: a plain hash map.
pub struct MemoryNeedleValueMap {
    hm: HashMap<u64, NeedleValue>,
}

impl MemoryNeedleValueMap {
    /// Creates an empty in-memory store.
    pub fn new() -> (m: Self)
        ensures
            m.contents() == Map::<u64, NeedleValue>::empty(),
    {
        MemoryNeedleValueMap { hm: HashMap::new() }
    }
}

impl Default for MemoryNeedleValueMap {
    fn default() -> (m: Self)
        ensures
            m.contents() == Map::<u64, NeedleValue>::empty(),
    {
        MemoryNeedleValueMap::new()
    }
}

impl NeedleValueMap for MemoryNeedleValueMap {
    closed spec fn contents(&self) -> Map<u64, NeedleValue> {
        self.hm@
    }

    fn set(&mut self, key: u64, value: NeedleValue) -> (prev: Option<NeedleValue>) {
        self.hm.insert(key, value)
    }

    fn delete(&mut self, key: u64) -> (removed: Option<NeedleValue>) {
        self.hm.remove(&key)
    }

    fn get(&self, key: u64) -> (value: Option<NeedleValue>) {
        match self.hm.get(&key) {
            Some(v) => Some(*v),
            None => None,
        }
    }
}

} // verus!
