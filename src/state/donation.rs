use vstd::prelude::*;
use crate::pubkey::Pubkey;

verus! {

/// The record of one completed donation; written once, never changed.
#[derive(Clone, Debug, PartialEq, Eq)]
pub struct Donation {
    pub donor: Pubkey,
    /// The wallet of the streamer who received the donation.
    pub streamer: Pubkey,
    /// The amount donated, before the fee.
    pub amount: u64,
    pub message: String,
    /// Seconds since the Unix epoch, from the host clock.
    pub timestamp: i64,
    /// The streamer's donation count when the donation was made.
    pub donation_id: u64,
    /// The token's mint, or the all-zero identity for the native asset.
    pub token_mint: Pubkey,
    /// The bump byte of the record's derived address.
    pub bump: u8,
}

} // verus!
