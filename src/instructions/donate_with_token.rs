use vstd::prelude::*;
use crate::constants::MIN_SPL_DONATION_AMOUNT;
use crate::errors::{ProgramError, StreamerDonationError};
use crate::instructions::common::{donation_failure, donation_made, process_donation, DonationOutcome};
use crate::pubkey::Pubkey;
use crate::state::config::Config;
use crate::state::streamer::Streamer;

verus! {

/// What the program reads of a token mint.
#[derive(Clone, Copy, Debug, PartialEq, Eq)]
pub struct Mint {
    pub key: Pubkey,
    /// The number of decimals of the token, handed to every checked transfer.
    pub decimals: u8,
}

/// What the program reads of a token account.
#[derive(Clone, Copy, Debug, PartialEq, Eq)]
pub struct TokenAccount {
    pub key: Pubkey,
    /// The mint whose tokens the account holds.
    pub mint: Pubkey,
    /// The identity allowed to move the account's tokens.
    pub owner: Pubkey,
}

/// The accounts of a donation in a fungible token.
#[derive(Clone, Copy, Debug, PartialEq, Eq)]
pub struct DonateWithToken {
    pub config: Config,
    /// The record of the streamer who receives the donation.
    pub streamer: Streamer,
    /// The payer, who signed the operation.
    pub donor: Pubkey,
    /// Must be the streamer's recorded wallet.
    pub streamer_wallet: Pubkey,
    pub mint: Mint,
    /// Pays the donation; holds the mint's tokens and is owned by the donor.
    pub donor_token_account: TokenAccount,
    /// Receives the streamer's share; holds the mint's tokens.
    pub streamer_token_account: TokenAccount,
    /// Receives the fee; holds the mint's tokens.
    pub fee_collector_token_account: TokenAccount,
    /// Must be the configured fee collector.
    pub fee_collector: Pubkey,
    /// The program under which the records' addresses are derived.
    pub program_id: Pubkey,
}

/// The first check on the accounts that fails, if any.
pub open spec fn account_failure(ctx: DonateWithToken) -> Option<ProgramError> {
    if ctx.config.paused {
        Some(ProgramError::Custom(StreamerDonationError::Paused))
    } else if ctx.streamer_wallet@ != ctx.streamer.wallet@ {
        Some(ProgramError::ConstraintRaw)
    } else if ctx.donor_token_account.mint@ != ctx.mint.key@ {
        Some(ProgramError::ConstraintTokenMint)
    } else if ctx.donor_token_account.owner@ != ctx.donor@ {
        Some(ProgramError::ConstraintTokenOwner)
    } else if ctx.streamer_token_account.mint@ != ctx.mint.key@ {
        Some(ProgramError::ConstraintTokenMint)
    } else if ctx.fee_collector_token_account.mint@ != ctx.mint.key@ {
        Some(ProgramError::ConstraintTokenMint)
    } else if ctx.fee_collector@ != ctx.config.fee_collector@ {
        Some(ProgramError::ConstraintRaw)
    } else {
        None
    }
}

/// The first failure of a token donation, if any.
pub open spec fn failure(ctx: DonateWithToken, amount: u64, message: Seq<char>) -> Option<ProgramError> {
    match account_failure(ctx) {
        Some(e) => Some(e),
        None => donation_failure(ctx.streamer, ctx.program_id@, amount, MIN_SPL_DONATION_AMOUNT, message),
    }
}

/// What a token donation does: it fails with the first failure and changes
/// nothing, or it succeeds, moves the fee from the donor's token account to
/// the fee collector's and the rest to the streamer's, and records the
/// donation with the mint; only the streamer's count changes in the accounts.
pub open spec fn donate_with_token_result(
    before: DonateWithToken,
    after: DonateWithToken,
    amount: u64,
    message: String,
    timestamp: i64,
    r: Result<DonationOutcome, ProgramError>,
) -> bool {
    match failure(before, amount, message@) {
        Some(e) => r == Err::<DonationOutcome, _>(e) && after == before,
        None => match r {
            Ok(o) => {
                &&& after == (DonateWithToken { streamer: after.streamer, ..before })
                &&& donation_made(
                    before.streamer,
                    after.streamer,
                    o,
                    before.program_id@,
                    before.donor,
                    before.donor_token_account.key,
                    before.fee_collector_token_account.key,
                    before.streamer_token_account.key,
                    amount,
                    message,
                    timestamp,
                    before.mint.key@,
                )
            },
            Err(_) => false,
        },
    }
}

/// Donates `amount` of the token of `ctx.mint` with `message`, at `timestamp`.
pub fn handler(ctx: &mut DonateWithToken, amount: u64, message: String, timestamp: i64) -> (r: Result<DonationOutcome, ProgramError>)
    ensures
        donate_with_token_result(*old(ctx), *final(ctx), amount, message, timestamp, r),
{
    if ctx.config.paused {
        return Err(ProgramError::Custom(StreamerDonationError::Paused));
    }
    if !ctx.streamer_wallet.key_eq(&ctx.streamer.wallet) {
        return Err(ProgramError::ConstraintRaw);
    }
    if !ctx.donor_token_account.mint.key_eq(&ctx.mint.key) {
        return Err(ProgramError::ConstraintTokenMint);
    }
    if !ctx.donor_token_account.owner.key_eq(&ctx.donor) {
        return Err(ProgramError::ConstraintTokenOwner);
    }
    if !ctx.streamer_token_account.mint.key_eq(&ctx.mint.key) {
        return Err(ProgramError::ConstraintTokenMint);
    }
    if !ctx.fee_collector_token_account.mint.key_eq(&ctx.mint.key) {
        return Err(ProgramError::ConstraintTokenMint);
    }
    if !ctx.fee_collector.key_eq(&ctx.config.fee_collector) {
        return Err(ProgramError::ConstraintRaw);
    }
    process_donation(
        &mut ctx.streamer,
        &ctx.program_id,
        &ctx.donor,
        &ctx.donor_token_account.key,
        &ctx.fee_collector_token_account.key,
        &ctx.streamer_token_account.key,
        amount,
        MIN_SPL_DONATION_AMOUNT,
        message,
        timestamp,
        &ctx.mint.key,
    )
}

} // verus!
