use vstd::prelude::*;

use crate::decimal::{decimal_digits, i128_or_zero, parse_i128, u128_to_string};
use crate::numeric::{decimal_at_least, decimal_ge, decimal_parses, parse_decimal};
use crate::observer_error::ObserverError;

verus! {

/// Intermediate swap data extracted from logs.
#[derive(Debug, Clone)]
pub struct RawSwapEvent {
    pub pool_id: String,
    pub sender: String,
    pub amount0: String,
    pub amount1: String,
    pub sqrt_price_x96: String,
    pub liquidity: String,
    pub tick: i32,
    pub fee: u32,
    pub block_number: u64,
    pub tx_hash: String,
}

/// Price data derived from swap events.
#[derive(Debug, Clone)]
pub struct PriceUpdate {
    pub token_id: String,
    pub price: String,
    pub volume: String,
    pub block_number: u64,
    pub tx_hash: String,
}

/// Mapping from V4 pool ID to (token_address, is_token0).
/// Loaded from DB based on LiquidityAllocated events.
#[derive(Debug, Clone)]
pub struct PoolTokenMapping {
    pub pool_id: String,
    pub token_id: String,
    pub is_token0: bool,
}

pub open spec fn abs_int(v: int) -> nat {
    if v < 0 {
        (-v) as nat
    } else {
        v as nat
    }
}

/// Decimal text of the magnitude of a signed on-chain amount; amounts that do not parse
/// count as zero.
pub open spec fn magnitude_text(amount: Seq<char>) -> Seq<char> {
    decimal_digits(abs_int(i128_or_zero(amount)))
}

/// The (native, token) amounts of a swap: the pool's two sides, ordered by which of them
/// is the project token.
pub open spec fn swap_amounts_spec(amount0: Seq<char>, amount1: Seq<char>, is_token0: bool) -> (Seq<char>, Seq<char>) {
    if is_token0 {
        (magnitude_text(amount1), magnitude_text(amount0))
    } else {
        (magnitude_text(amount0), magnitude_text(amount1))
    }
}

/// A swap is a sale when the pool received project tokens, i.e. the token side's signed
/// amount is positive, and a purchase otherwise.
pub open spec fn swap_side_spec(amount0: Seq<char>, amount1: Seq<char>, is_token0: bool) -> Seq<char> {
    let token_amount = if is_token0 { i128_or_zero(amount0) } else { i128_or_zero(amount1) };
    if token_amount > 0 {
        seq!['S', 'E', 'L', 'L']
    } else {
        seq!['B', 'U', 'Y']
    }
}

/// Which currency of the pool is the project token only decides which signed amount is
/// read as the token's: swapping the two amounts and the flag gives the same trade. A
/// trade is a sale exactly when the pool received project tokens (the token side's
/// signed amount is positive), and a purchase otherwise; the token amount is the size of
/// the token side and the native amount the size of the other side.
pub proof fn lemma_swap_side_follows_token_side(amount0: Seq<char>, amount1: Seq<char>)
    ensures
        swap_side_spec(amount0, amount1, true) == swap_side_spec(amount1, amount0, false),
        swap_amounts_spec(amount0, amount1, true) == swap_amounts_spec(amount1, amount0, false),
        (swap_side_spec(amount0, amount1, false) == "SELL"@) <==> i128_or_zero(amount1) > 0,
        (swap_side_spec(amount0, amount1, false) == "BUY"@) <==> i128_or_zero(amount1) <= 0,
        (swap_side_spec(amount0, amount1, true) == "SELL"@) <==> i128_or_zero(amount0) > 0,
        swap_amounts_spec(amount0, amount1, false) == (magnitude_text(amount0), magnitude_text(amount1)),
{
    reveal_strlit("SELL");
    reveal_strlit("BUY");
    assert("SELL"@ != "BUY"@) by {
        assert("SELL"@.len() != "BUY"@.len());
    }
    assert(seq!['S', 'E', 'L', 'L'] =~= "SELL"@);
    assert(seq!['B', 'U', 'Y'] =~= "BUY"@);
}

fn amount_or_zero(s: &String) -> (v: i128)
    ensures
        v as int == i128_or_zero(s@),
{
    match parse_i128(s.as_str()) {
        Some(v) => v,
        None => 0,
    }
}

fn magnitude_string(v: i128) -> (r: String)
    ensures
        r@ == decimal_digits(abs_int(v as int)),
{
    let magnitude: u128 = if v < 0 {
        ((-(v + 1)) as u128) + 1
    } else {
        v as u128
    };
    u128_to_string(magnitude)
}

/// Split a swap into (native_amount, token_amount), both as unsigned decimal text.
pub fn extract_amounts(swap: &RawSwapEvent, is_token0: bool) -> (r: (String, String))
    ensures
        (r.0@, r.1@) == swap_amounts_spec(swap.amount0@, swap.amount1@, is_token0),
        r.1@ == magnitude_text(if is_token0 { swap.amount0@ } else { swap.amount1@ }),
        r.0@ == magnitude_text(if is_token0 { swap.amount1@ } else { swap.amount0@ }),
{
    let amount0 = amount_or_zero(&swap.amount0);
    let amount1 = amount_or_zero(&swap.amount1);
    if is_token0 {
        (magnitude_string(amount1), magnitude_string(amount0))
    } else {
        (magnitude_string(amount0), magnitude_string(amount1))
    }
}

/// Parse swap amounts into (native_amount, token_amount, event_type).
pub fn parse_swap_amounts(event: &RawSwapEvent, is_token0: bool) -> (r: (String, String, String))
    ensures
        (r.0@, r.1@) == swap_amounts_spec(event.amount0@, event.amount1@, is_token0),
        r.2@ == swap_side_spec(event.amount0@, event.amount1@, is_token0),
        r.2@ == (if (if is_token0 { i128_or_zero(event.amount0@) } else { i128_or_zero(event.amount1@) }) > 0 {
            "SELL"@
        } else {
            "BUY"@
        }),
        r.1@ == magnitude_text(if is_token0 { event.amount0@ } else { event.amount1@ }),
        r.0@ == magnitude_text(if is_token0 { event.amount1@ } else { event.amount0@ }),
{
    let amount0 = amount_or_zero(&event.amount0);
    let amount1 = amount_or_zero(&event.amount1);
    let token_signed = if is_token0 { amount0 } else { amount1 };
    let side = if token_signed > 0 {
        proof { reveal_strlit("SELL"); }
        String::from_str("SELL")
    } else {
        proof { reveal_strlit("BUY"); }
        String::from_str("BUY")
    };
    if is_token0 {
        (magnitude_string(amount1), magnitude_string(amount0), side)
    } else {
        (magnitude_string(amount0), magnitude_string(amount1), side)
    }
}

/// The skip message for a swap in a pool without a known token.
pub open spec fn unknown_pool_message(pool_id: Seq<char>) -> Seq<char> {
    seq!['U', 'n', 'k', 'n', 'o', 'w', 'n', ' ', 'p', 'o', 'o', 'l', ' ', 'I', 'D', ':', ' '] + pool_id
}

/// Find the first mapping for `pool_id`; a swap in an unknown pool is skippable.
pub fn find_pool_mapping<'a>(mappings: &'a [PoolTokenMapping], pool_id: &String) -> (r: Result<&'a PoolTokenMapping, ObserverError>)
    ensures
        match r {
            Ok(m) => exists|i: int|
                0 <= i < mappings@.len() && mappings@[i] == *m && m.pool_id@ == pool_id@
                    && forall|j: int| 0 <= j < i ==> (#[trigger] mappings@[j]).pool_id@ != pool_id@,
            Err(e) => e == ObserverError::Skippable(e->Skippable_0) && e->Skippable_0@ == unknown_pool_message(pool_id@)
                && forall|j: int| 0 <= j < mappings@.len() ==> (#[trigger] mappings@[j]).pool_id@ != pool_id@,
        },
{
    let mut i: usize = 0;
    while i < mappings.len()
        invariant
            0 <= i <= mappings@.len(),
            forall|j: int| 0 <= j < i ==> (#[trigger] mappings@[j]).pool_id@ != pool_id@,
        decreases mappings@.len() - i,
    {
        if mappings[i].pool_id == *pool_id {
            return Ok(&mappings[i]);
        }
        i = i + 1;
    }
    proof { reveal_strlit("Unknown pool ID: "); }
    let mut msg = String::from_str("Unknown pool ID: ");
    msg.append(pool_id.as_str());
    Err(ObserverError::Skippable(msg))
}

/// The first mapping of pool `pool`, if any.
pub open spec fn first_mapping(ms: Seq<PoolTokenMapping>, pool: Seq<char>) -> Option<PoolTokenMapping>
    decreases ms.len(),
{
    if ms.len() == 0 {
        None
    } else if ms[0].pool_id@ == pool {
        Some(ms[0])
    } else {
        first_mapping(ms.drop_first(), pool)
    }
}

proof fn lemma_first_mapping(ms: Seq<PoolTokenMapping>, pool: Seq<char>, k: int)
    requires
        0 <= k <= ms.len(),
        forall|j: int| 0 <= j < k ==> (#[trigger] ms[j]).pool_id@ != pool,
        k < ms.len() ==> ms[k].pool_id@ == pool,
    ensures
        first_mapping(ms, pool) == if k < ms.len() { Some(ms[k]) } else { None::<PoolTokenMapping> },
    decreases k,
{
    if k > 0 {
        let t = ms.drop_first();
        assert forall|j: int| 0 <= j < k - 1 implies (#[trigger] t[j]).pool_id@ != pool by {
            assert(t[j] == ms[j + 1]);
        }
        assert(ms[0].pool_id@ != pool);
        lemma_first_mapping(t, pool, k - 1);
    }
}

/// What a price update is made of besides its price: the pool's project token, the swap's
/// (native, token) amounts, its block and its transaction.
#[derive(Debug, Clone)]
pub struct PriceInputs {
    pub token_id: String,
    pub native_amount: String,
    pub token_amount: String,
    pub block_number: u64,
    pub tx_hash: String,
}

pub open spec fn price_inputs_view(p: PriceInputs) -> (Seq<char>, Seq<char>, Seq<char>, u64, Seq<char>) {
    (p.token_id@, p.native_amount@, p.token_amount@, p.block_number, p.tx_hash@)
}

/// The price inputs of the swaps in `swaps` whose pool is mapped, in order; swaps in
/// unmapped pools are left out.
pub open spec fn price_inputs_spec(swaps: Seq<RawSwapEvent>, ms: Seq<PoolTokenMapping>) -> Seq<(Seq<char>, Seq<char>, Seq<char>, u64, Seq<char>)>
    decreases swaps.len(),
{
    if swaps.len() == 0 {
        Seq::empty()
    } else {
        let rest = price_inputs_spec(swaps.drop_last(), ms);
        let sw = swaps.last();
        match first_mapping(ms, sw.pool_id@) {
            Some(m) => {
                let amounts = swap_amounts_spec(sw.amount0@, sw.amount1@, m.is_token0);
                rest.push((m.token_id@, amounts.0, amounts.1, sw.block_number, sw.tx_hash@))
            },
            None => rest,
        }
    }
}

/// For each swap of a batch whose pool is mapped to a project token, the inputs of its
/// price update.
pub fn derive_price_inputs(swaps: &Vec<RawSwapEvent>, mappings: &[PoolTokenMapping]) -> (r: Vec<PriceInputs>)
    ensures
        r@.map_values(|p: PriceInputs| price_inputs_view(p)) == price_inputs_spec(swaps@, mappings@),
{
    let mut out: Vec<PriceInputs> = Vec::new();
    let mut i: usize = 0;
    while i < swaps.len()
        invariant
            0 <= i <= swaps@.len(),
            out@.map_values(|p: PriceInputs| price_inputs_view(p)) == price_inputs_spec(swaps@.take(i as int), mappings@),
        decreases swaps@.len() - i,
    {
        let sw = &swaps[i];
        let ghost before = out@.map_values(|p: PriceInputs| price_inputs_view(p));
        proof {
            assert(swaps@.take(i + 1).drop_last() =~= swaps@.take(i as int));
            assert(swaps@.take(i + 1).last() == swaps@[i as int]);
        }
        let found = find_pool_mapping(mappings, &sw.pool_id);
        match found {
            Ok(m) => {
                proof {
                    let k = choose|k: int|
                        0 <= k < mappings@.len() && mappings@[k] == *m && m.pool_id@ == sw.pool_id@
                            && forall|j: int| 0 <= j < k ==> (#[trigger] mappings@[j]).pool_id@ != sw.pool_id@;
                    lemma_first_mapping(mappings@, sw.pool_id@, k);
                }
                let (native_amount, token_amount) = extract_amounts(sw, m.is_token0);
                let p = PriceInputs {
                    token_id: String::from_str(m.token_id.as_str()),
                    native_amount,
                    token_amount,
                    block_number: sw.block_number,
                    tx_hash: String::from_str(sw.tx_hash.as_str()),
                };
                out.push(p);
                proof {
                    assert(out@.map_values(|p: PriceInputs| price_inputs_view(p)) =~= before.push(
                        price_inputs_view(p),
                    ));
                }
            },
            Err(_) => {
                proof {
                    lemma_first_mapping(mappings@, sw.pool_id@, mappings@.len() as int);
                }
            },
        }
        i = i + 1;
    }
    proof {
        assert(swaps@.take(swaps@.len() as int) =~= swaps@);
    }
    out
}

/// The larger of two numeric texts, compared as decimals: `existing` when both parse and
/// it is at least `new_val`; `new_val` otherwise, in particular whenever either text does
/// not parse.
pub open spec fn max_numeric_spec(existing: Seq<char>, new_val: Seq<char>) -> Seq<char> {
    if decimal_parses(existing) && decimal_parses(new_val) && decimal_at_least(existing, new_val) {
        existing
    } else {
        new_val
    }
}

/// Choose between two numeric texts given how they compare: `comparison` is `None` when
/// either text does not parse, else whether `existing` is at least `new_val`.
pub fn pick_max_numeric(existing: &str, new_val: &str, comparison: Option<bool>) -> (r: String)
    ensures
        r@ == match comparison {
            Some(true) => existing@,
            _ => new_val@,
        },
{
    match comparison {
        Some(true) => String::from_str(existing),
        _ => String::from_str(new_val),
    }
}

/// Compare two numeric strings and return the greater value.
/// Falls back to `new_val` if either string cannot be parsed.
pub fn max_numeric_str(existing: &str, new_val: &str) -> (r: String)
    ensures
        r@ == max_numeric_spec(existing@, new_val@),
{
    let comparison = match (parse_decimal(existing), parse_decimal(new_val)) {
        (Some(a), Some(b)) => Some(decimal_ge(&a, &b)),
        _ => None,
    };
    pick_max_numeric(existing, new_val, comparison)
}

/// The start of the one-minute chart bar that time `now` (unix seconds) falls in: `now`
/// rounded toward zero to a multiple of 60, as integer division does.
pub fn minute_bar_start(now: i64) -> (r: i64)
    ensures
        r % 60 == 0,
        now >= 0 ==> r <= now < r + 60,
        now < 0 ==> r - 60 < now <= r,
{
    (now / 60) * 60
}

} // verus!
