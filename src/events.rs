use vstd::prelude::*;
use crate::pubkey::Pubkey;
use crate::state::donation::Donation;

verus! {

/// Announces a completed donation.
#[derive(Clone, Debug, PartialEq, Eq)]
pub struct DonationReceived {
    pub donation_id: u64,
    pub streamer: Pubkey,
    pub donor: Pubkey,
    pub amount: u64,
    pub message: String,
    pub timestamp: i64,
    pub token_mint: Pubkey,
}

/// Announces a newly registered streamer.
#[derive(Clone, Copy, Debug, PartialEq, Eq)]
pub struct StreamerRegistered {
    pub streamer: Pubkey,
}

impl DonationReceived {
    /// Whether the announcement carries exactly the fields of the record.
    pub open spec fn announces(&self, d: Donation) -> bool {
        &&& self.donation_id == d.donation_id
        &&& self.streamer == d.streamer
        &&& self.donor == d.donor
        &&& self.amount == d.amount
        &&& self.message == d.message
        &&& self.timestamp == d.timestamp
        &&& self.token_mint == d.token_mint
    }

    /// The announcement of a donation record.
    pub fn of_donation(d: &Donation) -> (r: DonationReceived)
        ensures
            r.announces(*d),
    {
        DonationReceived {
            donation_id: d.donation_id,
            streamer: d.streamer,
            donor: d.donor,
            amount: d.amount,
            message: d.message.clone(),
            timestamp: d.timestamp,
            token_mint: d.token_mint,
        }
    }
}

} // verus!
