use vstd::prelude::*;

use crate::event_core::{event_dependencies, EventType};
use crate::progress_map::{
    block_progress, progress_lookup, progress_map_get, progress_map_insert, progress_map_new,
    ProgressMap,
};
use crate::stream_sync::advanced_to;

verus! {

/// All event types that `event_type` depends on have completed at least up to `block`.
pub open spec fn dependencies_met(completed: Map<EventType, u64>, event_type: EventType, block: u64) -> bool {
    forall|i: int|
        0 <= i < event_dependencies(event_type).len() ==> {
            let dep = #[trigger] event_dependencies(event_type)[i];
            completed.dom().contains(dep) && completed[dep] >= block
        }
}

/// `later` records at least as much progress as `earlier`, for every event type.
pub open spec fn progress_at_least(later: Map<EventType, u64>, earlier: Map<EventType, u64>) -> bool {
    forall|et: EventType|
        #![trigger earlier.dom().contains(et)]
        earlier.dom().contains(et) ==> later.dom().contains(et) && later[et] >= earlier[et]
}

/// Manages event processing dependencies and completion tracking.
///
/// Some event types depend on others being caught up before they can process
/// a given block. For example, Token events depend on Ido events because
/// project tokens are created by the IDO contract.
pub struct ReceiveManager {
    completed: ProgressMap,
}

impl View for ReceiveManager {
    type V = Map<EventType, u64>;

    closed spec fn view(&self) -> Map<EventType, u64> {
        block_progress(self.completed)
    }
}

impl ReceiveManager {
    pub fn new() -> (mgr: Self)
        ensures
            mgr@ == Map::<EventType, u64>::empty(),
    {
        let completed = progress_map_new();
        proof {
            assert(block_progress(completed) =~= Map::<EventType, u64>::empty());
        }
        ReceiveManager { completed }
    }

    /// Initialize the completion state for an event type.
    pub fn set_completed(&mut self, event_type: EventType, block: u64)
        ensures
            final(self)@ == old(self)@.insert(event_type, block),
    {
        progress_map_insert(&mut self.completed, event_type, block);
    }

    /// Check whether all dependencies for `event_type` have been processed
    /// up to at least `block`.
    pub fn can_process(&self, event_type: EventType, block: u64) -> (r: bool)
        ensures
            r == dependencies_met(self@, event_type, block),
    {
        let deps = event_type.dependencies();
        if deps.len() == 0 {
            return true;
        }
        let mut i: usize = 0;
        while i < deps.len()
            invariant
                deps@ == event_dependencies(event_type),
                0 <= i <= deps@.len(),
                forall|j: int|
                    0 <= j < i ==> {
                        let dep = #[trigger] event_dependencies(event_type)[j];
                        self@.dom().contains(dep) && self@[dep] >= block
                    },
            decreases deps@.len() - i,
        {
            let dep = deps[i];
            match progress_map_get(&self.completed, dep) {
                Some(dep_block) => {
                    if dep_block < block {
                        return false;
                    }
                },
                None => {
                    return false;
                },
            }
            i = i + 1;
        }
        true
    }

    /// Mark an event type as having completed processing up to `block`.
    pub fn mark_completed(&mut self, event_type: EventType, block: u64)
        ensures
            final(self)@ == old(self)@.insert(event_type, advanced_to(old(self)@, event_type, block)),
    {
        match progress_map_get(&self.completed, event_type) {
            Some(current) => {
                if block > current {
                    progress_map_insert(&mut self.completed, event_type, block);
                } else {
                    proof {
                        assert(old(self)@.insert(event_type, current) =~= old(self)@);
                    }
                }
            },
            None => {
                progress_map_insert(&mut self.completed, event_type, block);
            },
        }
    }

    /// Get the last completed block for an event type.
    pub fn completed_block(&self, event_type: EventType) -> (r: Option<u64>)
        ensures
            r == progress_lookup(self@, event_type),
    {
        progress_map_get(&self.completed, event_type)
    }
}

/// Marking progress only ever adds progress.
pub proof fn lemma_mark_completed_keeps_progress(completed: Map<EventType, u64>, event_type: EventType, block: u64)
    ensures
        progress_at_least(completed.insert(event_type, advanced_to(completed, event_type, block)), completed),
{
}

/// Once an event type may process a block, it stays allowed to as progress grows, and it
/// may also process every earlier block.
pub proof fn lemma_can_process_stays_true(
    earlier: Map<EventType, u64>,
    later: Map<EventType, u64>,
    event_type: EventType,
    block: u64,
    earlier_block: u64,
)
    requires
        dependencies_met(earlier, event_type, block),
        progress_at_least(later, earlier),
        earlier_block <= block,
    ensures
        dependencies_met(later, event_type, earlier_block),
{
    assert forall|i: int| 0 <= i < event_dependencies(event_type).len() implies {
        let dep = #[trigger] event_dependencies(event_type)[i];
        later.dom().contains(dep) && later[dep] >= earlier_block
    } by {
        let dep = event_dependencies(event_type)[i];
        assert(earlier.dom().contains(dep));
    }
}

/// An event type without dependencies may always process; the others may process a block
/// exactly when each of their dependencies has completed it.
pub proof fn lemma_dependency_requirements(completed: Map<EventType, u64>, block: u64)
    ensures
        dependencies_met(completed, EventType::Ido, block),
        dependencies_met(completed, EventType::Token, block) <==> (progress_lookup(completed, EventType::Ido) matches Some(b) && b >= block),
        dependencies_met(completed, EventType::Swap, block) <==> (progress_lookup(completed, EventType::Ido) matches Some(b) && b >= block),
        dependencies_met(completed, EventType::Lp, block) <==> (progress_lookup(completed, EventType::Ido) matches Some(b) && b >= block),
        dependencies_met(completed, EventType::Price, block) <==> (progress_lookup(completed, EventType::Swap) matches Some(b) && b >= block),
{
    assert(event_dependencies(EventType::Token)[0] == EventType::Ido);
    assert(event_dependencies(EventType::Swap)[0] == EventType::Ido);
    assert(event_dependencies(EventType::Lp)[0] == EventType::Ido);
    assert(event_dependencies(EventType::Price)[0] == EventType::Swap);
}

/// The block up to which an event type's progress is safe to persist: the smaller of what
/// the streaming side polled and what the receiving side processed; none unless both are
/// known.
pub open spec fn safe_block_spec(stream_block: Option<u64>, receive_block: Option<u64>) -> Option<u64> {
    match (stream_block, receive_block) {
        (Some(s), Some(r)) => Some(if s < r { s } else { r }),
        _ => None,
    }
}

/// The safe block is the minimum of the two sides' progress: it exists exactly when both
/// sides have progress, it is one of the two blocks and at most both, so it is the
/// stream's block when that is the smaller and the receiver's otherwise; which side is
/// named first does not matter.
pub proof fn lemma_safe_block_is_minimum(stream_block: Option<u64>, receive_block: Option<u64>)
    ensures
        (safe_block_spec(stream_block, receive_block) is Some) <==> (stream_block is Some && receive_block is Some),
        safe_block_spec(stream_block, receive_block) == safe_block_spec(receive_block, stream_block),
        stream_block matches Some(s) ==> receive_block matches Some(c) ==> {
            let b = safe_block_spec(stream_block, receive_block)->0;
            &&& b <= s && b <= c
            &&& b == s || b == c
        },
{
}

/// The block up to which progress may be persisted for an event type, given the
/// streaming side's cursor and the receiving side's completed block.
pub fn safe_persist_block(stream_block: Option<u64>, receive_block: Option<u64>) -> (r: Option<u64>)
    ensures
        r == safe_block_spec(stream_block, receive_block),
        r matches Some(b) ==> (stream_block matches Some(s) && b <= s) && (receive_block matches Some(c) && b <= c),
        (r is Some) <==> (stream_block is Some && receive_block is Some),
        r matches Some(b) ==> b == stream_block->0 || b == receive_block->0,
{
    match (stream_block, receive_block) {
        (Some(s), Some(c)) => Some(if s < c { s } else { c }),
        _ => None,
    }
}

} // verus!
