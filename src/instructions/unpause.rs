use vstd::prelude::*;
use crate::errors::{ProgramError, StreamerDonationError};
use crate::pubkey::Pubkey;
use crate::state::config::Config;

verus! {

/// The accounts of the operation that resumes the program.
#[derive(Clone, Copy, Debug, PartialEq, Eq)]
pub struct Unpause {
    pub config: Config,
    /// The signer, who must be the configured authority.
    pub authority: Pubkey,
}

/// The configuration after `caller` resumes it, or why it cannot.
pub open spec fn unpause_transition(config: Config, caller: Seq<u8>) -> Result<Config, StreamerDonationError> {
    if caller != config.authority@ {
        Err(StreamerDonationError::Unauthorized)
    } else if !config.paused {
        Err(StreamerDonationError::NotPaused)
    } else {
        Ok(Config { paused: false, ..config })
    }
}

/// What the operation does to the accounts: the configuration changes as
/// the transition says, or stays as it was with the transition's error.
pub open spec fn unpause_result(before: Unpause, after: Unpause, r: Result<(), ProgramError>) -> bool {
    &&& after.authority == before.authority
    &&& match unpause_transition(before.config, before.authority@) {
        Ok(c) => r is Ok && after.config == c,
        Err(e) => r == Err::<(), _>(ProgramError::Custom(e)) && after.config == before.config,
    }
}

/// Resumes the program: only the authority may, and only while paused.
pub fn handler(ctx: &mut Unpause) -> (r: Result<(), ProgramError>)
    ensures
        unpause_result(*old(ctx), *final(ctx), r),
{
    if !ctx.authority.key_eq(&ctx.config.authority) {
        return Err(ProgramError::Custom(StreamerDonationError::Unauthorized));
    }
    if !ctx.config.paused {
        return Err(ProgramError::Custom(StreamerDonationError::NotPaused));
    }
    ctx.config.paused = false;
    Ok(())
}

} // verus!
