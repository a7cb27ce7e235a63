use openlaunch::observer_error::ObserverError;
use openlaunch::swap::{
    derive_price_inputs, extract_amounts, find_pool_mapping, minute_bar_start, max_numeric_str, parse_swap_amounts, pick_max_numeric,
    PoolTokenMapping, PriceUpdate, RawSwapEvent,
};

fn make_swap(amount0: &str, amount1: &str) -> RawSwapEvent {
    RawSwapEvent {
        pool_id: "0xpool".to_string(),
        sender: "0xsender".to_string(),
        amount0: amount0.to_string(),
        amount1: amount1.to_string(),
        sqrt_price_x96: "0".to_string(),
        liquidity: "0".to_string(),
        tick: 0,
        fee: 0,
        block_number: 1,
        tx_hash: "0xtx".to_string(),
    }
}

// ── extract_amounts ─────────────────────────────────────────────

#[test]
fn extract_amounts_token_is_token0() {
    let swap = make_swap("1000", "-500");
    let (native, token) = extract_amounts(&swap, true);
    assert_eq!(native, "500");
    assert_eq!(token, "1000");
}

#[test]
fn extract_amounts_token_is_token1() {
    let swap = make_swap("-300", "600");
    let (native, token) = extract_amounts(&swap, false);
    assert_eq!(native, "300");
    assert_eq!(token, "600");
}

#[test]
fn extract_amounts_negative_values_absolute() {
    let swap = make_swap("-1000", "-2000");
    let (native, token) = extract_amounts(&swap, true);
    assert_eq!(native, "2000");
    assert_eq!(token, "1000");
}

#[test]
fn extract_amounts_zero_values() {
    let swap = make_swap("0", "0");
    let (native, token) = extract_amounts(&swap, true);
    assert_eq!(native, "0");
    assert_eq!(token, "0");
}

#[test]
fn extract_amounts_unparseable_defaults_to_zero() {
    let swap = make_swap("bad", "also_bad");
    let (native, token) = extract_amounts(&swap, false);
    assert_eq!(native, "0");
    assert_eq!(token, "0");
}

#[test]
fn extract_amounts_extreme_values() {
    let swap = make_swap(
        "-170141183460469231731687303715884105728",
        "170141183460469231731687303715884105727",
    );
    let (native, token) = extract_amounts(&swap, true);
    assert_eq!(native, "170141183460469231731687303715884105727");
    assert_eq!(token, "170141183460469231731687303715884105728");
    // One past the i128 range does not parse and counts as zero.
    let swap = make_swap("170141183460469231731687303715884105728", "+0012");
    let (native, token) = extract_amounts(&swap, false);
    assert_eq!(native, "0");
    assert_eq!(token, "12");
}

#[test]
fn price_update_clone() {
    let update = PriceUpdate {
        token_id: "tok1".to_string(),
        price: "1.5".to_string(),
        volume: "100".to_string(),
        block_number: 42,
        tx_hash: "0xabc".to_string(),
    };
    let cloned = update.clone();
    assert_eq!(cloned.token_id, "tok1");
    assert_eq!(cloned.price, "1.5");
    assert_eq!(cloned.volume, "100");
    assert_eq!(cloned.block_number, 42);
    assert_eq!(cloned.tx_hash, "0xabc");
}

// ── parse_swap_amounts ──────────────────────────────────────────

#[test]
fn swap_into_pool_token_side_is_a_sell() {
    // token is currency0 and the pool received it (positive amount0): a sell
    let (native, token, side) = parse_swap_amounts(&make_swap("1000", "-500"), true);
    assert_eq!((native.as_str(), token.as_str(), side.as_str()), ("500", "1000", "SELL"));
}

#[test]
fn swap_out_of_pool_token_side_is_a_buy() {
    let (native, token, side) = parse_swap_amounts(&make_swap("300", "-600"), false);
    assert_eq!((native.as_str(), token.as_str(), side.as_str()), ("300", "600", "BUY"));
    let (_, _, side) = parse_swap_amounts(&make_swap("0", "0"), true);
    assert_eq!(side, "BUY");
}

// ── pool mapping lookup ─────────────────────────────────────────

fn mappings() -> Vec<PoolTokenMapping> {
    vec![
        PoolTokenMapping { pool_id: "0xp1".into(), token_id: "0xt1".into(), is_token0: true },
        PoolTokenMapping { pool_id: "0xp2".into(), token_id: "0xt2".into(), is_token0: false },
        PoolTokenMapping { pool_id: "0xp1".into(), token_id: "0xt9".into(), is_token0: false },
    ]
}

#[test]
fn find_pool_mapping_returns_first_match() {
    let ms = mappings();
    let m = find_pool_mapping(&ms, &"0xp1".to_string()).unwrap();
    assert_eq!(m.token_id, "0xt1");
    assert!(m.is_token0);
    let m = find_pool_mapping(&ms, &"0xp2".to_string()).unwrap();
    assert_eq!(m.token_id, "0xt2");
}

#[test]
fn find_pool_mapping_unknown_pool_is_skippable() {
    let ms = mappings();
    match find_pool_mapping(&ms, &"0xzz".to_string()) {
        Err(ObserverError::Skippable(m)) => assert_eq!(m, "Unknown pool ID: 0xzz"),
        other => panic!("unexpected {:?}", other.map(|m| m.pool_id.clone())),
    }
}

// ── numeric maximum ─────────────────────────────────────────────

#[test]
fn max_numeric_str_compares_as_numbers() {
    assert_eq!(max_numeric_str("100", "99.5"), "100");
    assert_eq!(max_numeric_str("1.5", "2"), "2");
    assert_eq!(max_numeric_str("10", "9"), "10");
    assert_eq!(max_numeric_str("0.000001", "0.0000010"), "0.000001");
}

#[test]
fn max_numeric_str_falls_back_to_new_value_when_unparseable() {
    assert_eq!(max_numeric_str("5", "xyz"), "xyz");
    assert_eq!(max_numeric_str("abc", "1"), "1");
    assert_eq!(max_numeric_str("1", "abc"), "abc");
    assert_eq!(max_numeric_str("abc", "def"), "def");
    assert_eq!(max_numeric_str("-1", "junk"), "junk");
    assert_eq!(max_numeric_str("", "0"), "0");
}

#[test]
fn max_numeric_str_keeps_existing_on_ties() {
    assert_eq!(max_numeric_str("2.50", "2.5"), "2.50");
    assert_eq!(max_numeric_str("-3", "-3.0"), "-3");
}

#[test]
fn pick_max_numeric_follows_the_comparison() {
    assert_eq!(pick_max_numeric("a", "b", Some(true)), "a");
    assert_eq!(pick_max_numeric("a", "b", Some(false)), "b");
    assert_eq!(pick_max_numeric("a", "b", None), "b");
}

// ── price inputs and chart bars ─────────────────────────────────

#[test]
fn derive_price_inputs_keeps_mapped_swaps_in_order() {
    let ms = mappings();
    let mut a = make_swap("1000", "-500");
    a.pool_id = "0xp1".into();
    a.block_number = 7;
    a.tx_hash = "0xa".into();
    let mut b = make_swap("10", "20");
    b.pool_id = "0xunknown".into();
    let mut c = make_swap("-300", "600");
    c.pool_id = "0xp2".into();
    c.block_number = 8;
    c.tx_hash = "0xc".into();
    let inputs = derive_price_inputs(&vec![a, b, c], &ms);
    assert_eq!(inputs.len(), 2);
    assert_eq!(inputs[0].token_id, "0xt1");
    assert_eq!((inputs[0].native_amount.as_str(), inputs[0].token_amount.as_str()), ("500", "1000"));
    assert_eq!((inputs[0].block_number, inputs[0].tx_hash.as_str()), (7, "0xa"));
    assert_eq!(inputs[1].token_id, "0xt2");
    assert_eq!((inputs[1].native_amount.as_str(), inputs[1].token_amount.as_str()), ("300", "600"));
    assert!(derive_price_inputs(&vec![], &ms).is_empty());
}

#[test]
fn minute_bars_start_on_whole_minutes() {
    assert_eq!(minute_bar_start(0), 0);
    assert_eq!(minute_bar_start(125), 120);
    assert_eq!(minute_bar_start(1_700_000_059), 1_699_999_980 + 60);
    assert_eq!(minute_bar_start(-61), -60);
}
