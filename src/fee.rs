use vstd::prelude::*;
use crate::constants::FEE_PERCENTAGE;
use crate::errors::StreamerDonationError;

verus! {

/// The fee taken from a donation of `amount`: `FEE_PERCENTAGE` percent,
/// rounded down.
pub open spec fn fee_of(amount: int) -> int {
    amount * FEE_PERCENTAGE as int / 100
}

/// Whether the fee of a donation of `amount` can be computed in 64 bits.
pub open spec fn fee_fits(amount: int) -> bool {
    amount * FEE_PERCENTAGE as int <= u64::MAX as int
}

/// Splits a donation into the fee and what the streamer receives.
///
/// Fails with `Overflow` exactly when `amount * FEE_PERCENTAGE` does not fit
/// in 64 bits.
pub fn split_fee(amount: u64) -> (r: Result<(u64, u64), StreamerDonationError>)
    ensures
        r is Ok <==> fee_fits(amount as int),
        r is Err ==> r == Err::<(u64, u64), _>(StreamerDonationError::Overflow),
        r matches Ok((fee, streamer_amount)) ==> {
            &&& fee as int == fee_of(amount as int)
            &&& streamer_amount as int == amount as int - fee as int
        },
{
    let scaled = match amount.checked_mul(FEE_PERCENTAGE) {
        Some(v) => v,
        None => return Err(StreamerDonationError::Overflow),
    };
    let fee = match scaled.checked_div(100) {
        Some(v) => v,
        None => return Err(StreamerDonationError::Overflow),
    };
    assert(fee <= amount) by (nonlinear_arith)
        requires
            scaled == amount * FEE_PERCENTAGE,
            fee == scaled / 100,
            FEE_PERCENTAGE <= 100,
    ;
    let streamer_amount = match amount.checked_sub(fee) {
        Some(v) => v,
        None => return Err(StreamerDonationError::Overflow),
    };
    Ok((fee, streamer_amount))
}

} // verus!
