use vstd::prelude::*;

use crate::app_error::{is_bad_request, AppError};
use crate::auth::utf8_len;
use crate::decimal::{i128_to_string, int_text};
use crate::text::{ascii_upper, chars_of, is_ascii_text, same_text, utf8_len_upto};
use crate::trade::{to_uppercase, uppercase_text, TradeType};

verus! {

broadcast use vstd::string::group_string_axioms;

/// Page requested when a list query names none.
pub const DEFAULT_PAGE: i64 = 1;

/// Items per page when a list query names no limit.
pub const DEFAULT_LIMIT: i64 = 20;

/// Longest symbol (in bytes) a symbol query may ask about.
pub const MAX_SYMBOL_LEN: usize = 10;

/// The page a list query starts at when it names none.
pub fn default_page() -> (r: i64)
    ensures
        r == DEFAULT_PAGE,
{
    DEFAULT_PAGE
}

/// The page size of a list query that names none.
pub fn default_limit() -> (r: i64)
    ensures
        r == DEFAULT_LIMIT,
{
    DEFAULT_LIMIT
}

/// Why a symbol-availability query is refused: the symbol is missing, or longer than
/// `MAX_SYMBOL_LEN` bytes.
pub open spec fn symbol_query_problem(symbol: Seq<char>) -> Option<Seq<char>> {
    if symbol.len() == 0 {
        Some("symbol is required"@)
    } else if utf8_len(symbol) > MAX_SYMBOL_LEN {
        Some("symbol must be 10 characters or fewer"@)
    } else {
        None
    }
}

/// Check the symbol of a symbol-availability query before the database is asked.
pub fn check_symbol_query(symbol: &str) -> (r: Result<(), AppError>)
    ensures
        match symbol_query_problem(symbol@) {
            Some(msg) => is_bad_request(r, msg),
            None => r is Ok,
        },
{
    let v = chars_of(symbol);
    if v.len() == 0 {
        return Err(AppError::BadRequest(String::from_str("symbol is required")));
    }
    proof {
        assert(v@.subrange(0, v@.len() as int) =~= v@);
    }
    if utf8_len_upto(&v, 0, v.len(), MAX_SYMBOL_LEN + 1) > MAX_SYMBOL_LEN {
        return Err(AppError::BadRequest(String::from_str("symbol must be 10 characters or fewer")));
    }
    Ok(())
}

/// The project status a token list is filtered by: `funding` for tokens still in their
/// sale, `active` for the others, none when the query does not ask.
pub open spec fn ido_status_spec(is_ido: Option<bool>) -> Option<Seq<char>> {
    match is_ido {
        Some(true) => Some("funding"@),
        Some(false) => Some("active"@),
        None => None,
    }
}

pub fn ido_status_filter(is_ido: Option<bool>) -> (r: Option<&'static str>)
    ensures
        match ido_status_spec(is_ido) {
            Some(s) => r matches Some(x) && x@ == s,
            None => r is None,
        },
{
    proof {
        reveal_strlit("funding");
        reveal_strlit("active");
    }
    match is_ido {
        Some(true) => Some("funding"),
        Some(false) => Some("active"),
        None => None,
    }
}

pub open spec fn bool_text(b: bool) -> Seq<char> {
    if b {
        "true"@
    } else {
        "false"@
    }
}

pub open spec fn opt_text(s: Option<Seq<char>>) -> Seq<char> {
    match s {
        Some(t) => t,
        None => Seq::<char>::empty(),
    }
}

/// The cache key of one token-list query: its fields joined by `|` after `token_list`,
/// absent text fields left empty.
pub open spec fn token_list_key_spec(
    sort_type: Seq<char>,
    page: int,
    limit: int,
    category: Option<Seq<char>>,
    verified: bool,
    search: Option<Seq<char>>,
    is_ido: Option<bool>,
) -> Seq<char> {
    "token_list|"@ + sort_type + "|"@ + int_text(page) + "|"@ + int_text(limit) + "|"@ + opt_text(category) + "|"@
        + bool_text(verified) + "|"@ + opt_text(search) + "|"@ + match is_ido {
        Some(b) => bool_text(b),
        None => Seq::<char>::empty(),
    }
}

pub open spec fn opt_view(s: Option<&str>) -> Option<Seq<char>> {
    match s {
        Some(t) => Some(t@),
        None => None,
    }
}

fn push_bool(out: &mut String, b: bool)
    ensures
        final(out)@ == old(out)@ + bool_text(b),
{
    if b {
        out.append("true");
    } else {
        out.append("false");
    }
}

fn push_opt(out: &mut String, s: Option<&str>)
    ensures
        final(out)@ == old(out)@ + opt_text(opt_view(s)),
{
    match s {
        Some(t) => out.append(t),
        None => {
            proof {
                assert(old(out)@ + Seq::<char>::empty() =~= old(out)@);
            }
        },
    }
}

/// Build the cache key under which a token-list query's answer is kept.
pub fn token_list_cache_key(
    sort_type: &str,
    page: i64,
    limit: i64,
    category: Option<&str>,
    verified: bool,
    search: Option<&str>,
    is_ido: Option<bool>,
) -> (r: String)
    ensures
        r@ == token_list_key_spec(
            sort_type@,
            page as int,
            limit as int,
            opt_view(category),
            verified,
            opt_view(search),
            is_ido,
        ),
{
    let mut k = String::from_str("token_list|");
    k.append(sort_type);
    k.append("|");
    let p = i128_to_string(page as i128);
    k.append(p.as_str());
    k.append("|");
    let l = i128_to_string(limit as i128);
    k.append(l.as_str());
    k.append("|");
    push_opt(&mut k, category);
    k.append("|");
    push_bool(&mut k, verified);
    k.append("|");
    push_opt(&mut k, search);
    k.append("|");
    match is_ido {
        Some(b) => push_bool(&mut k, b),
        None => {
            proof {
                assert(k@ + Seq::<char>::empty() =~= k@);
            }
        },
    }
    k
}

/// The trade direction a swap-history query filters by: only `BUY` and `SELL` (exactly
/// so written) filter; anything else, `ALL` among them, lists both.
pub open spec fn trade_filter_spec(trade_type: Option<Seq<char>>) -> Option<TradeType> {
    match trade_type {
        Some(t) => if t == "BUY"@ {
            Some(TradeType::Buy)
        } else if t == "SELL"@ {
            Some(TradeType::Sell)
        } else {
            None
        },
        None => None,
    }
}

pub fn swap_history_trade_filter(trade_type: Option<&str>) -> (r: Option<TradeType>)
    ensures
        r == trade_filter_spec(opt_view(trade_type)),
{
    match trade_type {
        Some(t) => if same_text(t, "BUY") {
            proof {
                reveal_strlit("BUY");
            }
            Some(TradeType::Buy)
        } else if same_text(t, "SELL") {
            proof {
                reveal_strlit("SELL");
            }
            Some(TradeType::Sell)
        } else {
            None
        },
        None => None,
    }
}

/// The sort direction of a swap history: as asked, newest first (`DESC`) by default.
pub fn sort_direction(direction: Option<&str>) -> (r: String)
    ensures
        r@ == match direction {
            Some(d) => d@,
            None => "DESC"@,
        },
{
    match direction {
        Some(d) => d.to_owned(),
        None => String::from_str("DESC"),
    }
}

/// A quote is for a buy unless its trade type reads `SELL` in any case.
pub fn quote_is_buy(trade_type: &str) -> (r: bool)
    ensures
        r == (uppercase_text(trade_type@) != "SELL"@),
        is_ascii_text(trade_type@) ==> r == (trade_type@.map_values(|c: char| ascii_upper(c)) != "SELL"@),
{
    let upper = to_uppercase(trade_type);
    !same_text(upper.as_str(), "SELL")
}

/// How a token is traded at present.
#[derive(Debug, Clone, Copy, PartialEq, Eq, Structural)]
pub enum MarketType {
    /// Still in its initial sale.
    Ido,
    /// On the bonding curve.
    Curve,
    /// Graduated to the exchange pool.
    Dex,
}

/// The market type a stored market label stands for: `CURVE`, `DEX`, and the initial
/// sale for anything else.
pub open spec fn market_type_spec(label: Seq<char>) -> MarketType {
    if label == "CURVE"@ {
        MarketType::Curve
    } else if label == "DEX"@ {
        MarketType::Dex
    } else {
        MarketType::Ido
    }
}

pub fn market_type_of(label: &str) -> (r: MarketType)
    ensures
        r == market_type_spec(label@),
{
    if same_text(label, "CURVE") {
        proof {
            reveal_strlit("CURVE");
        }
        MarketType::Curve
    } else if same_text(label, "DEX") {
        proof {
            reveal_strlit("DEX");
        }
        MarketType::Dex
    } else {
        MarketType::Ido
    }
}

} // verus!
