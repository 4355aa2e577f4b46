use vstd::prelude::*;
use crate::derivation::{config_address, config_seeds, program_address};
use crate::errors::ProgramError;
use crate::pubkey::Pubkey;
use crate::state::config::Config;

verus! {

/// The accounts of the operation that creates the configuration.
#[derive(Clone, Copy, Debug, PartialEq, Eq)]
pub struct Initialize {
    /// What the configuration's address holds: nothing before creation.
    pub config: Option<Config>,
    /// The signer, who becomes authority and fee collector.
    pub authority: Pubkey,
    /// The program under which the configuration's address is derived.
    pub program_id: Pubkey,
}

/// What initialization does: where the configuration's address is empty and
/// can be derived, it creates the configuration, active, with the signer as
/// authority and fee collector, and returns the address; otherwise it fails
/// and changes nothing.
pub open spec fn initialize_result(before: Initialize, after: Initialize, r: Result<Pubkey, ProgramError>) -> bool {
    if before.config is Some {
        r == Err::<Pubkey, _>(ProgramError::AccountAlreadyInitialized) && after == before
    } else {
        match program_address(config_seeds(), before.program_id@) {
            None => r == Err::<Pubkey, _>(ProgramError::NoViableBump) && after == before,
            Some((a, b)) => {
                &&& r is Ok
                &&& r->Ok_0@ == a
                &&& after == (Initialize {
                    config: Some(
                        Config { authority: before.authority, fee_collector: before.authority, paused: false, bump: b },
                    ),
                    ..before
                })
            },
        }
    }
}

/// Creates the configuration and returns its derived address.
pub fn handler(ctx: &mut Initialize) -> (r: Result<Pubkey, ProgramError>)
    ensures
        initialize_result(*old(ctx), *final(ctx), r),
{
    if ctx.config.is_some() {
        return Err(ProgramError::AccountAlreadyInitialized);
    }
    let (address, bump) = match config_address(&ctx.program_id) {
        Some(found) => found,
        None => return Err(ProgramError::NoViableBump),
    };
    ctx.config = Some(Config { authority: ctx.authority, fee_collector: ctx.authority, paused: false, bump });
    Ok(address)
}

} // verus!
