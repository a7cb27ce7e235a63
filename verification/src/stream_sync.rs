use vstd::prelude::*;

use crate::event_core::{EventBatch, EventType};
use crate::observer_error::ObserverError;
use crate::progress_map::{
    block_progress, progress_lookup, progress_map_get, progress_map_insert, progress_map_new,
    ProgressMap,
};

verus! {

/// Number of blocks polled in one batch unless configured otherwise.
pub const DEFAULT_BATCH_SIZE: u64 = 100;

/// Tracks the current block range each event type should poll.
#[derive(Debug, Clone, Copy, PartialEq, Eq, Structural)]
pub struct BlockRange {
    pub from_block: u64,
    pub to_block: u64,
}

/// The range to poll next when the last processed block is `last`: from the block after
/// it to at most `batch_size` blocks later, but never past `latest_block`; none when
/// nothing is left to poll.
pub open spec fn range_after(last: u64, batch_size: u64, latest_block: u64) -> Option<BlockRange> {
    let from = last + 1;
    if from > latest_block {
        None
    } else {
        let end = from + batch_size - 1;
        Some(
            BlockRange {
                from_block: from as u64,
                to_block: (if end < latest_block { end } else { latest_block as int }) as u64,
            },
        )
    }
}

/// The range to poll next for `event_type`, given the recorded progress.
pub open spec fn next_range(
    progress: Map<EventType, u64>,
    batch_size: u64,
    event_type: EventType,
    latest_block: u64,
) -> Option<BlockRange> {
    match progress_lookup(progress, event_type) {
        None => None,
        Some(last) => range_after(last, batch_size, latest_block),
    }
}

/// The progress recorded for `event_type` after it is moved forward to `block`:
/// the larger of the two, or `block` when nothing was recorded.
pub open spec fn advanced_to(progress: Map<EventType, u64>, event_type: EventType, block: u64) -> u64 {
    match progress_lookup(progress, event_type) {
        Some(current) => if block > current { block } else { current },
        None => block,
    }
}

/// Manages per-event-type block progress for the streaming side.
pub struct StreamManager {
    progress: ProgressMap,
    batch_size: u64,
}

impl View for StreamManager {
    type V = Map<EventType, u64>;

    closed spec fn view(&self) -> Map<EventType, u64> {
        block_progress(self.progress)
    }
}

impl StreamManager {
    /// The number of blocks a polled range spans at most.
    pub closed spec fn batch(&self) -> u64 {
        self.batch_size
    }

    pub fn new() -> (mgr: Self)
        ensures
            mgr@ == Map::<EventType, u64>::empty(),
            mgr.batch() == DEFAULT_BATCH_SIZE,
    {
        Self::with_batch_size(DEFAULT_BATCH_SIZE)
    }

    /// A manager with no progress that polls ranges of at most `batch_size` blocks.
    pub fn with_batch_size(batch_size: u64) -> (mgr: Self)
        ensures
            mgr@ == Map::<EventType, u64>::empty(),
            mgr.batch() == batch_size,
    {
        let progress = progress_map_new();
        proof {
            assert(block_progress(progress) =~= Map::<EventType, u64>::empty());
        }
        StreamManager { progress, batch_size }
    }

    /// Initialize block progress for an event type.
    pub fn set_progress(&mut self, event_type: EventType, block: u64)
        ensures
            final(self)@ == old(self)@.insert(event_type, block),
            final(self).batch() == old(self).batch(),
    {
        progress_map_insert(&mut self.progress, event_type, block);
    }

    /// Get the next block range to poll for a given event type.
    /// Returns a range from the last processed block + 1 to
    /// min(last + batch size, latest_chain_block).
    pub fn get_range(&self, event_type: EventType, latest_block: u64) -> (r: Option<BlockRange>)
        ensures
            r == next_range(self@, self.batch(), event_type, latest_block),
            r matches Some(rg) ==> self@.dom().contains(event_type) && rg.from_block == self@[event_type] + 1
                && (self.batch() > 0 ==> rg.to_block == (if rg.from_block + self.batch() - 1 < latest_block {
                rg.from_block + self.batch() - 1
            } else {
                latest_block as int
            })),
            (r is None) <==> (!self@.dom().contains(event_type) || self@[event_type] >= latest_block),
    {
        let last_processed = match progress_map_get(&self.progress, event_type) {
            Some(block) => block,
            None => return None,
        };
        if last_processed >= latest_block {
            return None;
        }
        let from_block = last_processed + 1;
        let to_block = if self.batch_size == 0 {
            last_processed
        } else if self.batch_size - 1 < latest_block - from_block {
            from_block + (self.batch_size - 1)
        } else {
            latest_block
        };
        Some(BlockRange { from_block, to_block })
    }

    /// Advance the progress cursor for an event type after successful processing.
    /// Only moves forward — ignores attempts to set a lower block.
    pub fn advance(&mut self, event_type: EventType, new_block: u64)
        ensures
            final(self)@ == old(self)@.insert(event_type, advanced_to(old(self)@, event_type, new_block)),
            final(self).batch() == old(self).batch(),
    {
        match progress_map_get(&self.progress, event_type) {
            Some(current) => {
                if new_block > current {
                    progress_map_insert(&mut self.progress, event_type, new_block);
                } else {
                    proof {
                        assert(old(self)@.insert(event_type, current) =~= old(self)@);
                    }
                }
            },
            None => {
                progress_map_insert(&mut self.progress, event_type, new_block);
            },
        }
    }

    /// Get the current block for an event type.
    pub fn current_block(&self, event_type: EventType) -> (r: Option<u64>)
        ensures
            r == progress_lookup(self@, event_type),
    {
        progress_map_get(&self.progress, event_type)
    }
}

/// Record the outcome of polling `range` for `event_type`: a successful poll moves the
/// progress forward to the end of the range; a failed one leaves it as it was, so the
/// same range is polled again.
pub fn handle_stream_result(
    mgr: &mut StreamManager,
    event_type: EventType,
    result: &Result<(), ObserverError>,
    range: BlockRange,
)
    ensures
        result is Ok ==> final(mgr)@ == old(mgr)@.insert(event_type, advanced_to(old(mgr)@, event_type, range.to_block)),
        result is Err ==> final(mgr)@ == old(mgr)@,
        final(mgr).batch() == old(mgr).batch(),
{
    if result.is_ok() {
        mgr.advance(event_type, range.to_block);
    }
}

/// The batch a poll of `range` hands on to its receiver: none when the range held no
/// events, so that empty batches are never sent.
pub fn batch_for_range<T>(events: Vec<T>, range: BlockRange) -> (r: Option<EventBatch<T>>)
    ensures
        r is None <==> events@.len() == 0,
        r matches Some(b) ==> b.events@ == events@ && b.from_block == range.from_block && b.to_block
            == range.to_block,
{
    if events.len() == 0 {
        None
    } else {
        Some(EventBatch::new(events, range.from_block, range.to_block))
    }
}

/// A polled range is well formed: it starts right after the last processed block, ends at
/// or before the chain head, and spans at most `batch_size` blocks (at least one when
/// `batch_size` is positive).
pub proof fn lemma_range_shape(progress: Map<EventType, u64>, batch_size: u64, event_type: EventType, latest_block: u64)
    requires
        next_range(progress, batch_size, event_type, latest_block) is Some,
    ensures
        ({
            let r = next_range(progress, batch_size, event_type, latest_block)->0;
            &&& progress.dom().contains(event_type)
            &&& r.from_block == progress[event_type] + 1
            &&& r.to_block <= latest_block
            &&& r.to_block - r.from_block + 1 <= batch_size
            &&& batch_size > 0 ==> r.from_block <= r.to_block
        }),
{
}

/// A polled range spans exactly `batch_size` blocks unless the chain head cuts it short:
/// its last block is the smaller of `from_block + batch_size - 1` and `latest_block`.
pub proof fn lemma_range_spans_batch(progress: Map<EventType, u64>, batch_size: u64, event_type: EventType, latest_block: u64)
    requires
        batch_size > 0,
        next_range(progress, batch_size, event_type, latest_block) is Some,
    ensures
        ({
            let r = next_range(progress, batch_size, event_type, latest_block)->0;
            &&& r.from_block == progress[event_type] + 1
            &&& r.to_block == (if r.from_block + batch_size - 1 < latest_block {
                r.from_block + batch_size - 1
            } else {
                latest_block as int
            })
            &&& r.from_block + batch_size - 1 <= latest_block ==> r.to_block - r.from_block + 1 == batch_size
        }),
{
}

/// Nothing is polled for an event type that is caught up with the chain head, nor for
/// one without recorded progress.
pub proof fn lemma_no_range_when_caught_up(progress: Map<EventType, u64>, batch_size: u64, event_type: EventType, latest_block: u64)
    ensures
        next_range(progress, batch_size, event_type, latest_block) is None <==> (!progress.dom().contains(event_type)
            || progress[event_type] >= latest_block),
{
}

/// Advancing never moves the cursor backwards, and leaves other event types alone.
pub proof fn lemma_advance_monotonic(progress: Map<EventType, u64>, event_type: EventType, block: u64, other: EventType)
    ensures
        progress.dom().contains(event_type) ==> advanced_to(progress, event_type, block) >= progress[event_type],
        advanced_to(progress, event_type, block) >= block,
        other != event_type ==> progress_lookup(progress.insert(event_type, advanced_to(progress, event_type, block)), other)
            == progress_lookup(progress, other),
{
}

/// Polling a range and advancing to its end makes the next range start right after it:
/// consecutive ranges neither overlap nor leave gaps.
pub proof fn lemma_consecutive_ranges(
    progress: Map<EventType, u64>,
    batch_size: u64,
    event_type: EventType,
    latest_block: u64,
    next_latest: u64,
)
    requires
        next_range(progress, batch_size, event_type, latest_block) is Some,
        batch_size > 0,
    ensures
        ({
            let r = next_range(progress, batch_size, event_type, latest_block)->0;
            let after = progress.insert(event_type, advanced_to(progress, event_type, r.to_block));
            &&& progress_lookup(after, event_type) == Some(r.to_block)
            &&& next_range(after, batch_size, event_type, next_latest) matches Some(r2) ==> r2.from_block
                == r.to_block + 1
        }),
{
}

} // verus!
