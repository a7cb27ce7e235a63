use vstd::prelude::*;

use crate::observer_error::ObserverError;
use crate::swap::PoolTokenMapping;
use crate::text::same_text;

verus! {

/// Decimals of USDC amounts.
pub const USDC_DECIMALS: u32 = 6;

/// Decimals of project token amounts.
pub const TOKEN_DECIMALS: u32 = 18;

/// How often (in batches) the swap receiver reloads pool mappings from the database.
pub const MAPPING_RELOAD_INTERVAL: u64 = 50;

/// The address that mints come from and burns go to.
pub const ZERO_ADDRESS: &'static str = "0x0000000000000000000000000000000000000000";

/// What a receiver does after handling one event of a batch.
#[derive(Debug)]
pub enum EventAction {
    /// Go on with the next event.
    Continue,
    /// Abandon the batch and stop the receiver with this error.
    Stop(ObserverError),
}

/// A skippable error, or none, lets the batch go on; any other error stops the receiver.
pub fn after_event(outcome: Result<(), ObserverError>) -> (a: EventAction)
    ensures
        match outcome {
            Ok(()) => a is Continue,
            Err(e) => if e is Skippable {
                a is Continue
            } else {
                a == EventAction::Stop(e)
            },
        },
{
    match outcome {
        Ok(()) => EventAction::Continue,
        Err(e) => {
            if e.is_skippable() {
                EventAction::Continue
            } else {
                EventAction::Stop(e)
            }
        },
    }
}

/// What the swap receiver does after its first attempt at one swap.
#[derive(Debug)]
pub enum SwapEventAction {
    /// Go on with the next swap.
    Continue,
    /// Reload the pool mappings and try this swap once more.
    ReloadMappingsAndRetry,
    /// Abandon the batch and stop the receiver with this error.
    Stop(ObserverError),
}

/// Every skippable failure (an unknown pool) triggers a mapping reload, after which the
/// swap is tried once more (the outcome of that retry is judged by `after_event`).
/// Other errors stop the receiver.
pub fn after_swap_attempt(outcome: Result<(), ObserverError>) -> (a: SwapEventAction)
    ensures
        match outcome {
            Ok(()) => a is Continue,
            Err(e) => if e is Skippable {
                a is ReloadMappingsAndRetry
            } else {
                a == SwapEventAction::Stop(e)
            },
        },
{
    match outcome {
        Ok(()) => SwapEventAction::Continue,
        Err(e) => {
            if e.is_skippable() {
                SwapEventAction::ReloadMappingsAndRetry
            } else {
                SwapEventAction::Stop(e)
            }
        },
    }
}

/// Pool mappings are reloaded on every `MAPPING_RELOAD_INTERVAL`-th batch.
pub fn periodic_reload_due(batch_count: u64) -> (r: bool)
    ensures
        r == (batch_count % MAPPING_RELOAD_INTERVAL == 0),
{
    batch_count % MAPPING_RELOAD_INTERVAL == 0
}

/// Whether the project token is currency0 of its pool, per the first mapping for `token`.
pub fn token0_flag(mappings: &[PoolTokenMapping], token: &str) -> (r: Option<bool>)
    ensures
        match r {
            Some(flag) => exists|i: int|
                0 <= i < mappings@.len() && mappings@[i].token_id@ == token@ && mappings@[i].is_token0 == flag
                    && forall|j: int| 0 <= j < i ==> (#[trigger] mappings@[j]).token_id@ != token@,
            None => forall|j: int| 0 <= j < mappings@.len() ==> (#[trigger] mappings@[j]).token_id@ != token@,
        },
{
    let mut i: usize = 0;
    while i < mappings.len()
        invariant
            0 <= i <= mappings@.len(),
            forall|j: int| 0 <= j < i ==> (#[trigger] mappings@[j]).token_id@ != token@,
        decreases mappings@.len() - i,
    {
        if same_text(mappings[i].token_id.as_str(), token) {
            return Some(mappings[i].is_token0);
        }
        i = i + 1;
    }
    None
}

/// Decimals of (amount0, amount1) of a fee collection: the project token has 18 and USDC
/// 6, in the pool's currency order; unknown when the pool is not mapped.
pub fn fee_decimals(is_token0: Option<bool>) -> (r: Option<(u32, u32)>)
    ensures
        r == match is_token0 {
            Some(true) => Some((TOKEN_DECIMALS, USDC_DECIMALS)),
            Some(false) => Some((USDC_DECIMALS, TOKEN_DECIMALS)),
            None => None::<(u32, u32)>,
        },
{
    match is_token0 {
        Some(true) => Some((TOKEN_DECIMALS, USDC_DECIMALS)),
        Some(false) => Some((USDC_DECIMALS, TOKEN_DECIMALS)),
        None => None,
    }
}

/// Which balances a token transfer changes: (the sender's, unless it is a mint from the
/// zero address; the receiver's, unless it is a burn to the zero address).
pub fn transfer_balance_changes(from: &str, to: &str) -> (r: (bool, bool))
    ensures
        r.0 == (from@ != ZERO_ADDRESS@),
        r.1 == (to@ != ZERO_ADDRESS@),
{
    (!same_text(from, ZERO_ADDRESS), !same_text(to, ZERO_ADDRESS))
}

} // verus!
