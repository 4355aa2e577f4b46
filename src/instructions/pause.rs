use vstd::prelude::*;
use crate::errors::{ProgramError, StreamerDonationError};
use crate::pubkey::Pubkey;
use crate::state::config::Config;

verus! {

/// The accounts of the operation that pauses the program.
#[derive(Clone, Copy, Debug, PartialEq, Eq)]
pub struct Pause {
    pub config: Config,
    /// The signer, who must be the configured authority.
    pub authority: Pubkey,
}

/// The configuration after `caller` pauses it, or why it cannot.
pub open spec fn pause_transition(config: Config, caller: Seq<u8>) -> Result<Config, StreamerDonationError> {
    if caller != config.authority@ {
        Err(StreamerDonationError::Unauthorized)
    } else if config.paused {
        Err(StreamerDonationError::Paused)
    } else {
        Ok(Config { paused: true, ..config })
    }
}

/// What the operation does to the accounts: the configuration changes as
/// the transition says, or stays as it was with the transition's error.
pub open spec fn pause_result(before: Pause, after: Pause, r: Result<(), ProgramError>) -> bool {
    &&& after.authority == before.authority
    &&& match pause_transition(before.config, before.authority@) {
        Ok(c) => r is Ok && after.config == c,
        Err(e) => r == Err::<(), _>(ProgramError::Custom(e)) && after.config == before.config,
    }
}

/// Pauses the program: only the authority may, and only while active.
pub fn handler(ctx: &mut Pause) -> (r: Result<(), ProgramError>)
    ensures
        pause_result(*old(ctx), *final(ctx), r),
{
    if !ctx.authority.key_eq(&ctx.config.authority) {
        return Err(ProgramError::Custom(StreamerDonationError::Unauthorized));
    }
    if ctx.config.paused {
        return Err(ProgramError::Custom(StreamerDonationError::Paused));
    }
    ctx.config.paused = true;
    Ok(())
}

} // verus!
