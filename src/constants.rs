use vstd::prelude::*;

verus! {

/// Smallest donation accepted in the native asset, in its base units.
pub const MIN_DONATION_AMOUNT: u64 = 10;

/// Smallest donation accepted in a fungible token, in the token's base units.
pub const MIN_SPL_DONATION_AMOUNT: u64 = 1;

/// Share of every donation, in percent, that goes to the fee collector.
pub const FEE_PERCENTAGE: u64 = 5;

/// Longest donation message, counted in characters.
pub const MAX_MESSAGE_LENGTH: usize = 280;

} // verus!
