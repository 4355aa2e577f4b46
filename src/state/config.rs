use vstd::prelude::*;
use crate::pubkey::Pubkey;

verus! {

/// The program's single configuration record.
#[derive(Clone, Copy, Debug, PartialEq, Eq)]
pub struct Config {
    /// The identity allowed to pause and unpause the program.
    pub authority: Pubkey,
    /// The identity that receives the fee of every donation.
    pub fee_collector: Pubkey,
    /// While set, every donation is refused.
    pub paused: bool,
    /// The bump byte of the record's derived address.
    pub bump: u8,
}

} // verus!
