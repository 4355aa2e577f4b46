use vstd::prelude::*;
use crate::constants::MIN_DONATION_AMOUNT;
use crate::errors::{ProgramError, StreamerDonationError};
use crate::instructions::common::{donation_failure, donation_made, process_donation, DonationOutcome};
use crate::pubkey::{zero_key, Pubkey};
use crate::state::config::Config;
use crate::state::streamer::Streamer;

verus! {

/// The accounts of a donation in the native asset.
#[derive(Clone, Copy, Debug, PartialEq, Eq)]
pub struct Donate {
    pub config: Config,
    /// The record of the streamer who receives the donation.
    pub streamer: Streamer,
    /// The payer, who signed the operation.
    pub donor: Pubkey,
    /// Receives the streamer's share; must be the streamer's recorded wallet.
    pub streamer_wallet: Pubkey,
    /// Receives the fee; must be the configured fee collector.
    pub fee_collector: Pubkey,
    /// The program under which the records' addresses are derived.
    pub program_id: Pubkey,
}

/// The first check on the accounts that fails, if any.
pub open spec fn account_failure(ctx: Donate) -> Option<ProgramError> {
    if ctx.config.paused {
        Some(ProgramError::Custom(StreamerDonationError::Paused))
    } else if ctx.streamer_wallet@ != ctx.streamer.wallet@ {
        Some(ProgramError::ConstraintRaw)
    } else if ctx.fee_collector@ != ctx.config.fee_collector@ {
        Some(ProgramError::ConstraintRaw)
    } else {
        None
    }
}

/// The first failure of a native donation, if any.
pub open spec fn failure(ctx: Donate, amount: u64, message: Seq<char>) -> Option<ProgramError> {
    match account_failure(ctx) {
        Some(e) => Some(e),
        None => donation_failure(ctx.streamer, ctx.program_id@, amount, MIN_DONATION_AMOUNT, message),
    }
}

/// What a native donation does: it fails with the first failure and changes
/// nothing, or it succeeds, pays the fee to the fee collector and the rest to
/// the streamer's wallet, and records the donation with the native marker as
/// its mint; only the streamer's count changes in the accounts.
pub open spec fn donate_result(
    before: Donate,
    after: Donate,
    amount: u64,
    message: String,
    timestamp: i64,
    r: Result<DonationOutcome, ProgramError>,
) -> bool {
    match failure(before, amount, message@) {
        Some(e) => r == Err::<DonationOutcome, _>(e) && after == before,
        None => match r {
            Ok(o) => {
                &&& after == (Donate { streamer: after.streamer, ..before })
                &&& donation_made(
                    before.streamer,
                    after.streamer,
                    o,
                    before.program_id@,
                    before.donor,
                    before.donor,
                    before.fee_collector,
                    before.streamer_wallet,
                    amount,
                    message,
                    timestamp,
                    zero_key(),
                )
            },
            Err(_) => false,
        },
    }
}

/// Donates `amount` of the native asset with `message`, at `timestamp`.
pub fn handler(ctx: &mut Donate, amount: u64, message: String, timestamp: i64) -> (r: Result<DonationOutcome, ProgramError>)
    ensures
        donate_result(*old(ctx), *final(ctx), amount, message, timestamp, r),
{
    if ctx.config.paused {
        return Err(ProgramError::Custom(StreamerDonationError::Paused));
    }
    if !ctx.streamer_wallet.key_eq(&ctx.streamer.wallet) {
        return Err(ProgramError::ConstraintRaw);
    }
    if !ctx.fee_collector.key_eq(&ctx.config.fee_collector) {
        return Err(ProgramError::ConstraintRaw);
    }
    let native = Pubkey::default_key();
    process_donation(
        &mut ctx.streamer,
        &ctx.program_id,
        &ctx.donor,
        &ctx.donor,
        &ctx.fee_collector,
        &ctx.streamer_wallet,
        amount,
        MIN_DONATION_AMOUNT,
        message,
        timestamp,
        &native,
    )
}

} // verus!
