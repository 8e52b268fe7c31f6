use crate::pubkey::Pubkey;
use vstd::prelude::*;

verus! {

/// Ledger-wide singleton holding the fee schedule and the default outcome
/// token precision. Created once by the administrator; read by every other
/// operation.
#[derive(Clone, Copy, Debug, PartialEq, Eq, Structural)]
pub struct Global {
    /// Identity authorized to withdraw and administer.
    pub admin: Pubkey,
    /// Identity receiving the protocol share of each fee.
    pub fee_authority: Pubkey,
    /// Fixed native-token fee charged when a market is created.
    pub creator_fee_amount: u64,
    /// Fixed native-token fee charged when liquidity is deposited.
    pub liquidity_user_fee_amount: u64,
    /// Fixed native-token fee charged on each bet.
    pub betting_user_fee_amount: u64,
    /// Outcome-token precision: the minted supply is the supplied amount
    /// times ten to this power.
    pub decimal: u8,
    /// Monotonically incremented count of created markets (informational).
    pub market_count: u64,
    /// Percentage (0 to 100) of `betting_user_fee_amount` routed to
    /// `fee_authority`; the remainder goes to the market creator.
    pub fee_percentage: u8,
}

/// The configuration invariant: the fee percentage is a percentage.
pub open spec fn global_wf(g: Global) -> bool {
    g.fee_percentage <= 100
}

/// The parameter record of the global-initialization operation.
#[derive(Clone, Copy, Debug)]
pub struct GlobalParams {
    pub fee_authority: Pubkey,
    pub creator_fee_amount: u64,
    pub liquidity_user_fee_amount: u64,
    pub betting_user_fee_amount: u64,
    pub market_count: u64,
    pub decimal: u8,
    pub fee_percentage: u8,
}

} // verus!
