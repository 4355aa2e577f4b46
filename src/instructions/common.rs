use vstd::prelude::*;
use crate::constants::MAX_MESSAGE_LENGTH;
use crate::derivation::{donation_address, donation_seeds, program_address};
use crate::errors::{ProgramError, StreamerDonationError};
use crate::events::DonationReceived;
use crate::fee::{fee_fits, fee_of, split_fee};
use crate::pubkey::Pubkey;
use crate::state::donation::Donation;
use crate::state::streamer::Streamer;

verus! {

/// A movement of `amount` units of the donated asset from `from` to `to`.
#[derive(Clone, Copy, Debug, PartialEq, Eq)]
pub struct Transfer {
    pub from: Pubkey,
    pub to: Pubkey,
    pub amount: u64,
}

/// What a successful donation produces: the transfers to carry out, in
/// order, and the new record with its address and announcement.
#[derive(Clone, Debug, PartialEq, Eq)]
pub struct DonationOutcome {
    pub transfers: Vec<Transfer>,
    /// The derived address of the new donation record.
    pub address: Pubkey,
    pub donation: Donation,
    pub event: DonationReceived,
}

/// The transfers of a donation: the fee to the collector, then the rest to the
/// streamer, each left out when it is zero.
pub open spec fn payouts(source: Pubkey, fee_dest: Pubkey, streamer_dest: Pubkey, fee: u64, streamer_amount: u64) -> Seq<Transfer> {
    (if fee > 0 {
        seq![Transfer { from: source, to: fee_dest, amount: fee }]
    } else {
        Seq::empty()
    }) + (if streamer_amount > 0 {
        seq![Transfer { from: source, to: streamer_dest, amount: streamer_amount }]
    } else {
        Seq::empty()
    })
}

/// The first rule on the amount and message that a donation breaks, if any.
pub open spec fn amount_failure(amount: u64, min_amount: u64, message: Seq<char>) -> Option<StreamerDonationError> {
    if amount < min_amount {
        Some(StreamerDonationError::BelowMinimumDonation)
    } else if message.len() > MAX_MESSAGE_LENGTH {
        Some(StreamerDonationError::MessageTooLong)
    } else if !fee_fits(amount as int) {
        Some(StreamerDonationError::Overflow)
    } else {
        None
    }
}

/// Why the next donation record of `streamer` cannot be made, if it cannot.
pub open spec fn record_failure(streamer: Streamer, program_id: Seq<u8>) -> Option<ProgramError> {
    if program_address(donation_seeds(streamer.wallet@, streamer.donation_count), program_id) is None {
        Some(ProgramError::NoViableBump)
    } else if streamer.donation_count == u64::MAX {
        Some(ProgramError::Custom(StreamerDonationError::Overflow))
    } else {
        None
    }
}

/// The first failure of a donation once the accounts are checked, if any.
pub open spec fn donation_failure(
    streamer: Streamer,
    program_id: Seq<u8>,
    amount: u64,
    min_amount: u64,
    message: Seq<char>,
) -> Option<ProgramError> {
    match amount_failure(amount, min_amount, message) {
        Some(e) => Some(ProgramError::Custom(e)),
        None => record_failure(streamer, program_id),
    }
}

/// A successful donation: the streamer's count went up by one, the record
/// carries the old count as its number and sits at the address derived from
/// it, and the transfers split `amount` into the fee and the rest.
pub open spec fn donation_made(
    before: Streamer,
    after: Streamer,
    o: DonationOutcome,
    program_id: Seq<u8>,
    donor: Pubkey,
    source: Pubkey,
    fee_dest: Pubkey,
    streamer_dest: Pubkey,
    amount: u64,
    message: String,
    timestamp: i64,
    token_mint: Seq<u8>,
) -> bool {
    let fee = fee_of(amount as int);
    &&& before.donation_count < u64::MAX
    &&& after == (Streamer { donation_count: (before.donation_count + 1) as u64, ..before })
    &&& o.transfers@ == payouts(source, fee_dest, streamer_dest, fee as u64, (amount - fee) as u64)
    &&& program_address(donation_seeds(before.wallet@, before.donation_count), program_id)
        == Some((o.address@, o.donation.bump))
    &&& o.donation == (Donation {
        donor,
        streamer: before.wallet,
        amount,
        message,
        timestamp,
        donation_id: before.donation_count,
        token_mint: o.donation.token_mint,
        bump: o.donation.bump,
    })
    &&& o.donation.token_mint@ == token_mint
    &&& o.event.announces(o.donation)
}

/// Checks the amount and the message and splits the amount into the fee and
/// the streamer's share.
pub fn check_amount(amount: u64, min_amount: u64, message: &String) -> (r: Result<(u64, u64), StreamerDonationError>)
    ensures
        amount_failure(amount, min_amount, message@) matches Some(e) ==> r == Err::<(u64, u64), _>(e),
        amount_failure(amount, min_amount, message@) is None ==> r is Ok,
        r matches Ok((fee, streamer_amount)) ==> {
            &&& fee as int == fee_of(amount as int)
            &&& streamer_amount as int == amount as int - fee as int
        },
{
    if amount < min_amount {
        return Err(StreamerDonationError::BelowMinimumDonation);
    }
    if message.as_str().unicode_len() > MAX_MESSAGE_LENGTH {
        return Err(StreamerDonationError::MessageTooLong);
    }
    split_fee(amount)
}

/// The transfers that pay out a donation.
pub fn plan_payouts(source: Pubkey, fee_dest: Pubkey, streamer_dest: Pubkey, fee: u64, streamer_amount: u64) -> (r: Vec<Transfer>)
    ensures
        r@ == payouts(source, fee_dest, streamer_dest, fee, streamer_amount),
{
    let mut r: Vec<Transfer> = Vec::new();
    if fee > 0 {
        r.push(Transfer { from: source, to: fee_dest, amount: fee });
    }
    if streamer_amount > 0 {
        r.push(Transfer { from: source, to: streamer_dest, amount: streamer_amount });
    }
    assert(r@ =~= payouts(source, fee_dest, streamer_dest, fee, streamer_amount));
    r
}

/// The steps that both kinds of donation share, once the accounts are checked:
/// the amount and message rules, the fee split, the transfers from `source`,
/// and the new record numbered by the streamer's count, which goes up by one.
///
/// On failure the streamer is left as it was.
pub fn process_donation(
    streamer: &mut Streamer,
    program_id: &Pubkey,
    donor: &Pubkey,
    source: &Pubkey,
    fee_dest: &Pubkey,
    streamer_dest: &Pubkey,
    amount: u64,
    min_amount: u64,
    message: String,
    timestamp: i64,
    token_mint: &Pubkey,
) -> (r: Result<DonationOutcome, ProgramError>)
    ensures
        donation_failure(*old(streamer), program_id@, amount, min_amount, message@) matches Some(e) ==> {
            &&& r == Err::<DonationOutcome, _>(e)
            &&& *final(streamer) == *old(streamer)
        },
        donation_failure(*old(streamer), program_id@, amount, min_amount, message@) is None ==> r is Ok,
        r matches Ok(o) ==> donation_made(
            *old(streamer),
            *final(streamer),
            o,
            program_id@,
            *donor,
            *source,
            *fee_dest,
            *streamer_dest,
            amount,
            message,
            timestamp,
            token_mint@,
        ),
{
    let (fee, streamer_amount) = match check_amount(amount, min_amount, &message) {
        Ok(split) => split,
        Err(e) => return Err(ProgramError::Custom(e)),
    };
    let donation_id = streamer.donation_count;
    let (address, bump) = match donation_address(program_id, &streamer.wallet, donation_id) {
        Some(found) => found,
        None => return Err(ProgramError::NoViableBump),
    };
    let next = match donation_id.checked_add(1) {
        Some(v) => v,
        None => return Err(ProgramError::Custom(StreamerDonationError::Overflow)),
    };
    let transfers = plan_payouts(*source, *fee_dest, *streamer_dest, fee, streamer_amount);
    streamer.donation_count = next;
    let donation = Donation {
        donor: *donor,
        streamer: streamer.wallet,
        amount,
        message,
        timestamp,
        donation_id,
        token_mint: *token_mint,
        bump,
    };
    let event = DonationReceived::of_donation(&donation);
    Ok(DonationOutcome { transfers, address, donation, event })
}

} // verus!
