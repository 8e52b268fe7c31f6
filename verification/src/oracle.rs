use crate::errors::ContractError;
use crate::market::{Market, MarketStatus};
use vstd::prelude::*;

verus! {

/// Maximum age, in ledger time units, of an oracle reading still considered
/// valid for resolution.
pub const STALENESS_WINDOW: i64 = 300;

/// Whether a reading last updated at `last_update` is still fresh at ledger
/// time `now`.
pub open spec fn fresh_at(last_update: i64, now: i64) -> bool {
    last_update + STALENESS_WINDOW >= now
}

/// Resolves an `Active` market against an oracle reading, as one atomic
/// step: the outcome `quest <= feed_value` is recorded and the market
/// finishes. A market that is not `Active` is rejected with `InvalidState`
/// (so a finished market can never be resolved again), and a reading whose
/// `last_update` precedes `now - STALENESS_WINDOW` is rejected with
/// `StaleFeed`; either rejection leaves the market unchanged.
pub fn get_oracle_res(market: &mut Market, feed_value: u64, last_update: i64, now: i64) -> (r:
    Result<bool, ContractError>)
    ensures
        old(market).market_status != MarketStatus::Active ==> r == Err::<bool, ContractError>(
            ContractError::InvalidState,
        ) && *final(market) == *old(market),
        old(market).market_status == MarketStatus::Active && !fresh_at(last_update, now) ==> r
            == Err::<bool, ContractError>(ContractError::StaleFeed) && *final(market) == *old(
            market,
        ),
        old(market).market_status == MarketStatus::Active && fresh_at(last_update, now) ==> r
            == Ok::<bool, ContractError>(old(market).quest as u64 <= feed_value) && *final(market)
            == (Market {
            result: old(market).quest as u64 <= feed_value,
            market_status: MarketStatus::Finished,
            ..*old(market)
        }),
{
    if !(market.market_status == MarketStatus::Active) {
        return Err(ContractError::InvalidState);
    }
    let fresh: bool = match last_update.checked_add(STALENESS_WINDOW) {
        Some(t) => t >= now,
        None => true,
    };
    if !fresh {
        return Err(ContractError::StaleFeed);
    }
    let result: bool = (market.quest as u64) <= feed_value;
    market.update_result(result);
    market.update_market_status(MarketStatus::Finished);
    Ok(result)
}

} // verus!
