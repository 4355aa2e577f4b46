//! A program that lets viewers send donations to registered streamers, with a
//! fixed share of each donation going to a fee collector, in the native asset
//! or in a fungible token.
//!
//! Each operation takes the accounts it reads and changes, checks them, and
//! either fails with nothing changed or applies all of its effects. The
//! transfers that a donation needs are returned for the host to carry out.
use vstd::prelude::*;

pub mod constants;
pub mod derivation;
pub mod errors;
pub mod events;
pub mod fee;
pub mod instructions;
pub mod laws;
pub mod pubkey;
pub mod state;

use crate::errors::ProgramError;
use crate::events::StreamerRegistered;
use crate::instructions::common::DonationOutcome;
use crate::instructions::donate::{donate_result, Donate};
use crate::instructions::donate_with_token::{donate_with_token_result, DonateWithToken};
use crate::instructions::initialize::{initialize_result, Initialize};
use crate::instructions::pause::{pause_result, Pause};
use crate::instructions::register_streamer::{register_result, RegisterStreamer};
use crate::instructions::unpause::{unpause_result, Unpause};
use crate::pubkey::Pubkey;

verus! {

/// Creates the program's configuration.
pub fn initialize(ctx: &mut Initialize) -> (r: Result<Pubkey, ProgramError>)
    ensures
        initialize_result(*old(ctx), *final(ctx), r),
{
    instructions::initialize::handler(ctx)
}

/// Registers a streamer.
pub fn register_streamer(ctx: &mut RegisterStreamer) -> (r: Result<StreamerRegistered, ProgramError>)
    ensures
        register_result(*old(ctx), *final(ctx), r),
{
    instructions::register_streamer::handler(ctx)
}

/// Donates in the native asset.
pub fn donate(ctx: &mut Donate, amount: u64, message: String, timestamp: i64) -> (r: Result<DonationOutcome, ProgramError>)
    ensures
        donate_result(*old(ctx), *final(ctx), amount, message, timestamp, r),
{
    instructions::donate::handler(ctx, amount, message, timestamp)
}

/// Donates in a fungible token.
pub fn donate_with_token(ctx: &mut DonateWithToken, amount: u64, message: String, timestamp: i64) -> (r: Result<
    DonationOutcome,
    ProgramError,
>)
    ensures
        donate_with_token_result(*old(ctx), *final(ctx), amount, message, timestamp, r),
{
    instructions::donate_with_token::handler(ctx, amount, message, timestamp)
}

/// Pauses the program.
pub fn pause(ctx: &mut Pause) -> (r: Result<(), ProgramError>)
    ensures
        pause_result(*old(ctx), *final(ctx), r),
{
    instructions::pause::handler(ctx)
}

/// Resumes the program.
pub fn unpause(ctx: &mut Unpause) -> (r: Result<(), ProgramError>)
    ensures
        unpause_result(*old(ctx), *final(ctx), r),
{
    instructions::unpause::handler(ctx)
}

} // verus!
