use openlaunch::app_error::AppError;
use openlaunch::query::{
    check_symbol_query, default_limit, default_page, ido_status_filter, market_type_of,
    quote_is_buy, sort_direction, swap_history_trade_filter, token_list_cache_key, MarketType,
};
use openlaunch::trade::TradeType;

#[test]
fn list_query_defaults() {
    assert_eq!(default_page(), 1);
    assert_eq!(default_limit(), 20);
}

#[test]
fn symbol_query_checks() {
    match check_symbol_query("") {
        Err(AppError::BadRequest(m)) => assert_eq!(m, "symbol is required"),
        other => panic!("unexpected {:?}", other),
    }
    match check_symbol_query("ABCDEFGHIJK") {
        Err(AppError::BadRequest(m)) => assert_eq!(m, "symbol must be 10 characters or fewer"),
        other => panic!("unexpected {:?}", other),
    }
    assert!(check_symbol_query("ABCDEFGHIJ").is_ok());
    assert!(check_symbol_query("ABC").is_ok());
    // Length is counted in bytes: five two-byte characters are exactly ten.
    assert!(check_symbol_query("ééééé").is_ok());
    assert!(check_symbol_query("éééééé").is_err());
}

#[test]
fn ido_status_filters() {
    assert_eq!(ido_status_filter(Some(true)), Some("funding"));
    assert_eq!(ido_status_filter(Some(false)), Some("active"));
    assert_eq!(ido_status_filter(None), None);
}

#[test]
fn token_list_cache_key_layout() {
    assert_eq!(
        token_list_cache_key("volume", 2, 50, Some("defi"), true, Some("abc"), Some(false)),
        "token_list|volume|2|50|defi|true|abc|false"
    );
    assert_eq!(
        token_list_cache_key("new", 1, 20, None, false, None, None),
        "token_list|new|1|20||false||"
    );
    assert_eq!(
        token_list_cache_key("new", -1, 0, None, false, None, Some(true)),
        "token_list|new|-1|0||false||true"
    );
}

#[test]
fn swap_history_filters() {
    assert_eq!(swap_history_trade_filter(Some("BUY")), Some(TradeType::Buy));
    assert_eq!(swap_history_trade_filter(Some("SELL")), Some(TradeType::Sell));
    assert_eq!(swap_history_trade_filter(Some("ALL")), None);
    assert_eq!(swap_history_trade_filter(Some("buy")), None);
    assert_eq!(swap_history_trade_filter(None), None);
}

#[test]
fn swap_history_direction_defaults_to_desc() {
    assert_eq!(sort_direction(None), "DESC");
    assert_eq!(sort_direction(Some("ASC")), "ASC");
}

#[test]
fn quote_direction() {
    assert!(quote_is_buy("BUY"));
    assert!(quote_is_buy(""));
    assert!(quote_is_buy("anything"));
    assert!(!quote_is_buy("SELL"));
    assert!(!quote_is_buy("sell"));
    assert!(!quote_is_buy("SeLl"));
}

#[test]
fn market_types() {
    assert_eq!(market_type_of("CURVE"), MarketType::Curve);
    assert_eq!(market_type_of("DEX"), MarketType::Dex);
    assert_eq!(market_type_of("UNKNOWN"), MarketType::Ido);
    assert_eq!(market_type_of(""), MarketType::Ido);
    assert_eq!(market_type_of("curve"), MarketType::Ido);
}
