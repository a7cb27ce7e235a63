use vstd::prelude::*;

use crate::text::{ascii_upper, is_ascii_text, same_text};

verus! {

/// Direction of a trade.
#[derive(Debug, Clone, Copy, PartialEq, Eq, Structural)]
pub enum TradeType {
    Buy,
    Sell,
}

/// The chart interval a requested resolution stands for; unknown resolutions fall back
/// to one hour.
pub open spec fn interval_spec(resolution: Seq<char>) -> Seq<char> {
    if resolution == "1"@ || resolution == "1m"@ {
        "1m"@
    } else if resolution == "5"@ || resolution == "5m"@ {
        "5m"@
    } else if resolution == "15"@ || resolution == "15m"@ {
        "15m"@
    } else if resolution == "60"@ || resolution == "1h"@ || resolution == "1H"@ {
        "1h"@
    } else if resolution == "240"@ || resolution == "4h"@ || resolution == "4H"@ {
        "4h"@
    } else if resolution == "D"@ || resolution == "1D"@ || resolution == "1d"@ {
        "1d"@
    } else if resolution == "W"@ || resolution == "1W"@ || resolution == "1w"@ {
        "1w"@
    } else {
        "1h"@
    }
}

/// Map a chart resolution (TradingView style or shorthand) to a stored bar interval.
pub fn resolve_interval(resolution: &str) -> (r: String)
    ensures
        r@ == interval_spec(resolution@),
{
    let label = if same_text(resolution, "1") || same_text(resolution, "1m") {
        "1m"
    } else if same_text(resolution, "5") || same_text(resolution, "5m") {
        "5m"
    } else if same_text(resolution, "15") || same_text(resolution, "15m") {
        "15m"
    } else if same_text(resolution, "60") || same_text(resolution, "1h") || same_text(resolution, "1H") {
        "1h"
    } else if same_text(resolution, "240") || same_text(resolution, "4h") || same_text(resolution, "4H") {
        "4h"
    } else if same_text(resolution, "D") || same_text(resolution, "1D") || same_text(resolution, "1d") {
        "1d"
    } else if same_text(resolution, "W") || same_text(resolution, "1W") || same_text(resolution, "1w") {
        "1w"
    } else {
        "1h"
    };
    String::from_str(label)
}

/// What `str::to_uppercase` returns for `s`.
pub uninterp spec fn uppercase_text(s: Seq<char>) -> Seq<char>;

/// `str::to_uppercase`: the uppercase form of `s` as the standard library defines it
/// (Unicode `Uppercase` mapping), named by `uppercase_text`; on ASCII text that mapping
/// turns `a`..=`z` into `A`..=`Z` and leaves every other character as it is. Beyond
/// ASCII the contract states nothing of the mapping.
#[verifier::external_body]
pub(crate) fn to_uppercase(s: &str) -> (r: String)
    ensures
        r@ == uppercase_text(s@),
        is_ascii_text(s@) ==> r@ == s@.map_values(|c: char| ascii_upper(c)),
{
    s.to_uppercase()
}

/// A stored trade direction is a buy when its uppercase form is `BUY`, a sell otherwise.
pub open spec fn trade_type_spec(s: Seq<char>) -> TradeType {
    if uppercase_text(s) == "BUY"@ {
        TradeType::Buy
    } else {
        TradeType::Sell
    }
}

/// Read a stored trade direction; anything but `BUY` (in any case) is a sell.
pub fn parse_trade_type(s: &str) -> (r: TradeType)
    ensures
        r == trade_type_spec(s@),
        is_ascii_text(s@) ==> r == (if s@.map_values(|c: char| ascii_upper(c)) == "BUY"@ {
            TradeType::Buy
        } else {
            TradeType::Sell
        }),
{
    let upper = to_uppercase(s);
    trade_type_of_uppercase(upper.as_str())
}

/// The trade direction an already uppercased direction text stands for.
pub fn trade_type_of_uppercase(upper: &str) -> (r: TradeType)
    ensures
        r == (if upper@ == "BUY"@ { TradeType::Buy } else { TradeType::Sell }),
{
    if same_text(upper, "BUY") {
        TradeType::Buy
    } else {
        TradeType::Sell
    }
}

} // verus!
