use vstd::prelude::*;
use crate::derivation::{program_address, streamer_address, streamer_seeds};
use crate::errors::ProgramError;
use crate::events::StreamerRegistered;
use crate::pubkey::Pubkey;
use crate::state::streamer::Streamer;

verus! {

/// The accounts of a streamer's registration.
#[derive(Clone, Copy, Debug, PartialEq, Eq)]
pub struct RegisterStreamer {
    /// What the address derived from the wallet holds: nothing before registration.
    pub streamer: Option<Streamer>,
    /// The streamer's wallet, which signed the operation.
    pub streamer_wallet: Pubkey,
    /// The program under which the record's address is derived.
    pub program_id: Pubkey,
}

/// What registration does: where the address derived from the wallet is empty
/// and can be derived, it records the wallet as a streamer with no donations
/// and announces it; otherwise it fails and changes nothing.
pub open spec fn register_result(
    before: RegisterStreamer,
    after: RegisterStreamer,
    r: Result<StreamerRegistered, ProgramError>,
) -> bool {
    if before.streamer is Some {
        r == Err::<StreamerRegistered, _>(ProgramError::AccountAlreadyInitialized) && after == before
    } else {
        match program_address(streamer_seeds(before.streamer_wallet@), before.program_id@) {
            None => r == Err::<StreamerRegistered, _>(ProgramError::NoViableBump) && after == before,
            Some((_, b)) => {
                &&& r == Ok::<_, ProgramError>(StreamerRegistered { streamer: before.streamer_wallet })
                &&& after == (RegisterStreamer {
                    streamer: Some(Streamer { wallet: before.streamer_wallet, donation_count: 0, bump: b }),
                    ..before
                })
            },
        }
    }
}

/// Registers the signer's wallet as a streamer.
pub fn handler(ctx: &mut RegisterStreamer) -> (r: Result<StreamerRegistered, ProgramError>)
    ensures
        register_result(*old(ctx), *final(ctx), r),
{
    if ctx.streamer.is_some() {
        return Err(ProgramError::AccountAlreadyInitialized);
    }
    let (_address, bump) = match streamer_address(&ctx.program_id, &ctx.streamer_wallet) {
        Some(found) => found,
        None => return Err(ProgramError::NoViableBump),
    };
    ctx.streamer = Some(Streamer { wallet: ctx.streamer_wallet, donation_count: 0, bump });
    Ok(StreamerRegistered { streamer: ctx.streamer_wallet })
}

} // verus!
