use vstd::prelude::*;

verus! {

/// The failures that the program's own rules raise.
#[derive(Clone, Copy, Debug, PartialEq, Eq, Structural)]
pub enum StreamerDonationError {
    /// The donation amount is below the minimum for its asset.
    BelowMinimumDonation,
    /// The message exceeds the maximum length.
    MessageTooLong,
    /// The program is paused, or a pause was asked while already paused.
    Paused,
    /// An unpause was asked while the program was not paused.
    NotPaused,
    /// An arithmetic step would overflow.
    Overflow,
    /// The caller is not the configured authority.
    Unauthorized,
}

/// Every way an operation of the program can fail: its own rules, or the
/// account checks that guard each operation.
#[derive(Clone, Copy, Debug, PartialEq, Eq, Structural)]
pub enum ProgramError {
    /// One of the program's own rules was broken.
    Custom(StreamerDonationError),
    /// An account that the operation creates already holds data.
    AccountAlreadyInitialized,
    /// No bump byte yields a program address for the given seeds.
    NoViableBump,
    /// An account does not match the identity recorded for it.
    ConstraintRaw,
    /// A token account is bound to another mint.
    ConstraintTokenMint,
    /// A token account is not owned by the donor.
    ConstraintTokenOwner,
}

} // verus!
