use crate::errors::ContractError;
use vstd::prelude::*;

verus! {

/// The protocol's share of a betting fee:
/// `floor(betting_user_fee_amount * fee_percentage / 100)`.
pub open spec fn authority_share(betting_user_fee_amount: u64, fee_percentage: u8) -> int {
    betting_user_fee_amount * fee_percentage / 100
}

/// Splits a betting fee into the protocol-authority share and the creator
/// share. The two shares always rebuild the whole fee:
/// `to_authority + to_creator == betting_user_fee_amount`.
/// Fails with `ArithmeticError` exactly when the percentage multiplication
/// overflows.
pub fn split_betting_fee(betting_user_fee_amount: u64, fee_percentage: u8) -> (r: Result<
    (u64, u64),
    ContractError,
>)
    requires
        fee_percentage <= 100,
    ensures
        match r {
            Ok(split) => betting_user_fee_amount * fee_percentage <= u64::MAX
                && split.0 as int == authority_share(betting_user_fee_amount, fee_percentage)
                && split.1 == betting_user_fee_amount - split.0
                && split.0 + split.1 == betting_user_fee_amount,
            Err(e) => e == ContractError::ArithmeticError
                && betting_user_fee_amount * fee_percentage > u64::MAX,
        },
{
    let product = match betting_user_fee_amount.checked_mul(fee_percentage as u64) {
        Some(p) => p,
        None => { return Err(ContractError::ArithmeticError); },
    };
    let to_authority: u64 = product / 100;
    assert(to_authority <= betting_user_fee_amount) by (nonlinear_arith)
        requires
            fee_percentage <= 100,
            to_authority == betting_user_fee_amount * fee_percentage / 100;
    let to_creator: u64 = betting_user_fee_amount - to_authority;
    Ok((to_authority, to_creator))
}

} // verus!
