use openlaunch::event_core::EventType;
use openlaunch::observer_error::ObserverError;
use openlaunch::stream_sync::{batch_for_range, handle_stream_result, BlockRange, StreamManager};

// ── BlockRange tests ────────────────────────────────────────────

#[test]
fn block_range_stores_fields() {
    let range = BlockRange {
        from_block: 10,
        to_block: 20,
    };
    assert_eq!(range.from_block, 10);
    assert_eq!(range.to_block, 20);
}

#[test]
fn block_range_is_copy() {
    let a = BlockRange {
        from_block: 1,
        to_block: 2,
    };
    let b = a; // Copy
    assert_eq!(a.from_block, b.from_block);
    assert_eq!(a.to_block, b.to_block);
}

// ── StreamManager::set_progress / current_block tests ───────────

#[test]
fn current_block_returns_none_when_unset() {
    let mgr = StreamManager::new();
    assert_eq!(mgr.current_block(EventType::Ido), None);
}

#[test]
fn set_progress_and_current_block() {
    let mut mgr = StreamManager::new();
    mgr.set_progress(EventType::Ido, 100);
    assert_eq!(mgr.current_block(EventType::Ido), Some(100));
}

#[test]
fn set_progress_overwrites_previous() {
    let mut mgr = StreamManager::new();
    mgr.set_progress(EventType::Swap, 50);
    mgr.set_progress(EventType::Swap, 200);
    assert_eq!(mgr.current_block(EventType::Swap), Some(200));
}

#[test]
fn set_progress_independent_per_event_type() {
    let mut mgr = StreamManager::new();
    mgr.set_progress(EventType::Ido, 10);
    mgr.set_progress(EventType::Token, 20);
    assert_eq!(mgr.current_block(EventType::Ido), Some(10));
    assert_eq!(mgr.current_block(EventType::Token), Some(20));
    assert_eq!(mgr.current_block(EventType::Swap), None);
}

// ── StreamManager::advance tests ────────────────────────────────

#[test]
fn advance_updates_progress() {
    let mut mgr = StreamManager::new();
    mgr.set_progress(EventType::Lp, 100);
    mgr.advance(EventType::Lp, 150);
    assert_eq!(mgr.current_block(EventType::Lp), Some(150));
}

#[test]
fn advance_works_without_prior_set_progress() {
    let mut mgr = StreamManager::new();
    mgr.advance(EventType::Price, 42);
    assert_eq!(mgr.current_block(EventType::Price), Some(42));
}

// ── StreamManager::get_range tests ──────────────────────────────

#[test]
fn get_range_returns_none_when_no_progress() {
    let mgr = StreamManager::new();
    assert!(mgr.get_range(EventType::Ido, 1000).is_none());
}

#[test]
fn get_range_returns_none_when_caught_up() {
    let mut mgr = StreamManager::new();
    mgr.set_progress(EventType::Ido, 500);
    // latest_block == last_processed => from_block = 501 > 500
    assert!(mgr.get_range(EventType::Ido, 500).is_none());
}

#[test]
fn get_range_returns_range_when_behind() {
    let mut mgr = StreamManager::new();
    mgr.set_progress(EventType::Ido, 100);
    let range = mgr.get_range(EventType::Ido, 500).unwrap();
    assert_eq!(range.from_block, 101);
    // to_block = min(101 + BATCH_SIZE - 1, 500)
    // default BATCH_SIZE is 100, so to_block = min(200, 500) = 200
    assert_eq!(range.to_block, 200);
}

#[test]
fn get_range_clamped_to_latest_block() {
    let mut mgr = StreamManager::new();
    mgr.set_progress(EventType::Token, 100);
    // latest is only 110, so to_block should be 110 (< 100 + BATCH_SIZE)
    let range = mgr.get_range(EventType::Token, 110).unwrap();
    assert_eq!(range.from_block, 101);
    assert_eq!(range.to_block, 110);
}

#[test]
fn get_range_from_block_zero() {
    let mut mgr = StreamManager::new();
    mgr.set_progress(EventType::Swap, 0);
    let range = mgr.get_range(EventType::Swap, 50).unwrap();
    assert_eq!(range.from_block, 1);
    assert!(range.to_block <= 50);
}

#[test]
fn get_range_exactly_one_block_ahead() {
    let mut mgr = StreamManager::new();
    mgr.set_progress(EventType::Price, 99);
    let range = mgr.get_range(EventType::Price, 100).unwrap();
    assert_eq!(range.from_block, 100);
    assert_eq!(range.to_block, 100);
}

// ── advance with lower block (documents behavior) ───────────────

#[test]
fn advance_prevents_going_backward() {
    // Like mark_completed in ReceiveManager, advance only moves forward.
    let mut mgr = StreamManager::new();
    mgr.set_progress(EventType::Ido, 200);
    mgr.advance(EventType::Ido, 100);
    assert_eq!(
        mgr.current_block(EventType::Ido),
        Some(200),
        "advance should not go backward"
    );
}

// ── Full workflow: set_progress -> get_range -> advance -> get_range ─

#[test]
fn full_workflow_cursor_advances_through_blocks() {
    let mut mgr = StreamManager::new();

    // 1. Initialize progress at block 0
    mgr.set_progress(EventType::Swap, 0);
    assert_eq!(mgr.current_block(EventType::Swap), Some(0));

    // 2. First get_range: should start from block 1
    let range1 = mgr.get_range(EventType::Swap, 500).unwrap();
    assert_eq!(range1.from_block, 1);
    // BATCH_SIZE defaults to 100, so to_block = min(1 + 99, 500) = 100
    assert_eq!(range1.to_block, 100);

    // 3. Advance cursor to to_block after processing
    mgr.advance(EventType::Swap, range1.to_block);
    assert_eq!(mgr.current_block(EventType::Swap), Some(100));

    // 4. Next get_range picks up where we left off
    let range2 = mgr.get_range(EventType::Swap, 500).unwrap();
    assert_eq!(range2.from_block, 101);
    assert_eq!(range2.to_block, 200);

    // 5. Advance again
    mgr.advance(EventType::Swap, range2.to_block);

    // 6. Continue until caught up
    let range3 = mgr.get_range(EventType::Swap, 500).unwrap();
    assert_eq!(range3.from_block, 201);
    assert_eq!(range3.to_block, 300);
}

// ── Additional cases ────────────────────────────────────────────

#[test]
fn custom_batch_size_limits_range() {
    let mut mgr = StreamManager::with_batch_size(10);
    mgr.set_progress(EventType::Lp, 5);
    let range = mgr.get_range(EventType::Lp, 1000).unwrap();
    assert_eq!(range, BlockRange { from_block: 6, to_block: 15 });
}

#[test]
fn consecutive_ranges_cover_every_block_once() {
    let mut mgr = StreamManager::with_batch_size(7);
    mgr.set_progress(EventType::Ido, 0);
    let mut next_expected = 1;
    while let Some(range) = mgr.get_range(EventType::Ido, 30) {
        assert_eq!(range.from_block, next_expected);
        assert!(range.to_block - range.from_block + 1 <= 7);
        next_expected = range.to_block + 1;
        mgr.advance(EventType::Ido, range.to_block);
    }
    assert_eq!(next_expected, 31);
}

#[test]
fn get_range_near_u64_max_does_not_overflow() {
    let mut mgr = StreamManager::new();
    mgr.set_progress(EventType::Ido, u64::MAX - 5);
    let range = mgr.get_range(EventType::Ido, u64::MAX).unwrap();
    assert_eq!(range.from_block, u64::MAX - 4);
    assert_eq!(range.to_block, u64::MAX);
    mgr.set_progress(EventType::Ido, u64::MAX);
    assert!(mgr.get_range(EventType::Ido, u64::MAX).is_none());
}

#[test]
fn failed_poll_keeps_the_same_range() {
    let mut mgr = StreamManager::with_batch_size(10);
    mgr.set_progress(EventType::Swap, 100);
    let range = mgr.get_range(EventType::Swap, 500).unwrap();
    handle_stream_result(&mut mgr, EventType::Swap, &Err(ObserverError::fatal("rpc down")), range);
    assert_eq!(mgr.current_block(EventType::Swap), Some(100));
    assert_eq!(mgr.get_range(EventType::Swap, 500), Some(range));
    handle_stream_result(&mut mgr, EventType::Swap, &Ok(()), range);
    assert_eq!(mgr.current_block(EventType::Swap), Some(110));
    assert_eq!(mgr.get_range(EventType::Swap, 500), Some(BlockRange { from_block: 111, to_block: 120 }));
}

#[test]
fn empty_polls_send_no_batch() {
    let range = BlockRange { from_block: 5, to_block: 9 };
    assert!(batch_for_range(Vec::<u32>::new(), range).is_none());
    let b = batch_for_range(vec![1u32, 2], range).unwrap();
    assert_eq!(b.events, vec![1, 2]);
    assert_eq!((b.from_block, b.to_block), (5, 9));
}
