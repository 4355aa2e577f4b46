use vstd::prelude::*;
use crate::pubkey::Pubkey;

verus! {

/// The record of one registered streamer.
#[derive(Clone, Copy, Debug, PartialEq, Eq)]
pub struct Streamer {
    /// The streamer's wallet, which also keys the record's address.
    pub wallet: Pubkey,
    /// How many donations the streamer has received; the next donation gets
    /// this number.
    pub donation_count: u64,
    /// The bump byte of the record's derived address.
    pub bump: u8,
}

} // verus!
