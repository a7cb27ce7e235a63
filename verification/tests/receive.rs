use openlaunch::observer_error::ObserverError;
use openlaunch::receive::{
    after_event, after_swap_attempt, fee_decimals, periodic_reload_due, token0_flag,
    transfer_balance_changes, EventAction, SwapEventAction, MAPPING_RELOAD_INTERVAL,
    TOKEN_DECIMALS, USDC_DECIMALS, ZERO_ADDRESS,
};
use openlaunch::swap::PoolTokenMapping;

#[test]
fn skippable_errors_do_not_stop_a_batch() {
    assert!(matches!(after_event(Ok(())), EventAction::Continue));
    assert!(matches!(after_event(Err(ObserverError::skippable("dup"))), EventAction::Continue));
    match after_event(Err(ObserverError::retriable("db down"))) {
        EventAction::Stop(ObserverError::Retriable(m)) => assert_eq!(m, "db down"),
        other => panic!("unexpected {:?}", other),
    }
    match after_event(Err(ObserverError::fatal("bad"))) {
        EventAction::Stop(ObserverError::Fatal(m)) => assert_eq!(m, "bad"),
        other => panic!("unexpected {:?}", other),
    }
}

#[test]
fn every_unknown_pool_reloads_mappings_and_retries() {
    assert!(matches!(after_swap_attempt(Ok(())), SwapEventAction::Continue));
    // The first and any later unknown pool of a batch both ask for a reload.
    for _ in 0..2 {
        assert!(matches!(
            after_swap_attempt(Err(ObserverError::skippable("Unknown pool ID: 0x1"))),
            SwapEventAction::ReloadMappingsAndRetry
        ));
    }
    match after_swap_attempt(Err(ObserverError::retriable("x"))) {
        SwapEventAction::Stop(ObserverError::Retriable(m)) => assert_eq!(m, "x"),
        other => panic!("unexpected {:?}", other),
    }
    match after_swap_attempt(Err(ObserverError::fatal("y"))) {
        SwapEventAction::Stop(ObserverError::Fatal(m)) => assert_eq!(m, "y"),
        other => panic!("unexpected {:?}", other),
    }
}

#[test]
fn mappings_reload_every_fifty_batches() {
    assert_eq!(MAPPING_RELOAD_INTERVAL, 50);
    assert!(periodic_reload_due(0));
    assert!(!periodic_reload_due(1));
    assert!(!periodic_reload_due(49));
    assert!(periodic_reload_due(50));
    assert!(periodic_reload_due(100));
}

#[test]
fn token0_flag_uses_first_mapping_of_token() {
    let ms = vec![
        PoolTokenMapping { pool_id: "p1".into(), token_id: "t1".into(), is_token0: false },
        PoolTokenMapping { pool_id: "p2".into(), token_id: "t2".into(), is_token0: true },
        PoolTokenMapping { pool_id: "p3".into(), token_id: "t1".into(), is_token0: true },
    ];
    assert_eq!(token0_flag(&ms, "t1"), Some(false));
    assert_eq!(token0_flag(&ms, "t2"), Some(true));
    assert_eq!(token0_flag(&ms, "t3"), None);
}

#[test]
fn fee_decimals_follow_currency_order() {
    assert_eq!(fee_decimals(Some(true)), Some((TOKEN_DECIMALS, USDC_DECIMALS)));
    assert_eq!(fee_decimals(Some(false)), Some((6, 18)));
    assert_eq!(fee_decimals(None), None);
}

#[test]
fn transfers_from_or_to_zero_address_change_one_balance() {
    assert_eq!(transfer_balance_changes(ZERO_ADDRESS, "0xabc"), (false, true));
    assert_eq!(transfer_balance_changes("0xabc", ZERO_ADDRESS), (true, false));
    assert_eq!(transfer_balance_changes("0xabc", "0xdef"), (true, true));
}
