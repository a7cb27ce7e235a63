use dashmap::DashMap;
use vstd::prelude::*;

use crate::event_core::EventType;

verus! {

#[verifier::external_type_specification]
#[verifier::external_body]
#[verifier::reject_recursive_types(K)]
#[verifier::reject_recursive_types(V)]
#[verifier::reject_recursive_types(S)]
pub struct ExDashMap<K, V, S>(DashMap<K, V, S>);

/// A concurrent map from event type to the block number reached for it.
pub type ProgressMap = DashMap<EventType, u64>;

/// The entries of a concurrent map from event type to block number.
pub uninterp spec fn block_progress(m: ProgressMap) -> Map<EventType, u64>;

/// The value a block-progress map holds for `key`, if any.
pub open spec fn progress_lookup(m: Map<EventType, u64>, key: EventType) -> Option<u64> {
    if m.dom().contains(key) {
        Some(m[key])
    } else {
        None
    }
}

/// `DashMap::new`: the new map holds no entries.
#[verifier::external_body]
pub(crate) fn progress_map_new() -> (fresh: ProgressMap)
    ensures
        block_progress(fresh).dom() == Set::<EventType>::empty(),
{
    DashMap::new()
}

/// `DashMap::insert`: afterwards `key` maps to `block` and every other entry is
/// unchanged; the value that `key` held before is returned.
/// The map is passed by `&mut` so that no other handle observes it mid-update.
#[verifier::external_body]
pub(crate) fn progress_map_insert(m: &mut ProgressMap, key: EventType, block: u64) -> (prev: Option<u64>)
    ensures
        block_progress(*final(m)) == block_progress(*old(m)).insert(key, block),
        prev == progress_lookup(block_progress(*old(m)), key),
{
    m.insert(key, block)
}

/// `DashMap::get`, read out through the returned guard: the value `key` holds, if any.
#[verifier::external_body]
pub(crate) fn progress_map_get(m: &ProgressMap, key: EventType) -> (r: Option<u64>)
    ensures
        r == progress_lookup(block_progress(*m), key),
{
    m.get(&key).map(|entry| *entry)
}

} // verus!
