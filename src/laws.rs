use vstd::prelude::*;
use crate::constants::{FEE_PERCENTAGE, MAX_MESSAGE_LENGTH, MIN_DONATION_AMOUNT, MIN_SPL_DONATION_AMOUNT};
use crate::errors::{ProgramError, StreamerDonationError};
use crate::events::StreamerRegistered;
use crate::fee::{fee_fits, fee_of};
use crate::instructions::common::{payouts, record_failure, DonationOutcome, Transfer};
use crate::instructions::donate::{account_failure, donate_result, Donate};
use crate::instructions::donate_with_token::{
    account_failure as token_account_failure,
    donate_with_token_result,
    DonateWithToken,
};
use crate::instructions::pause::{pause_result, Pause};
use crate::instructions::register_streamer::{register_result, RegisterStreamer};
use crate::instructions::unpause::{unpause_result, Unpause};
use crate::pubkey::Pubkey;
use crate::state::streamer::Streamer;

verus! {

/// The sum of the amounts of a list of transfers.
pub open spec fn total(ts: Seq<Transfer>) -> int
    decreases ts.len(),
{
    if ts.len() == 0 {
        0
    } else {
        total(ts.drop_last()) + ts.last().amount
    }
}

/// The fee never exceeds the amount it is taken from.
pub proof fn lemma_fee_bounds(amount: u64)
    ensures
        0 <= fee_of(amount as int) <= amount,
{
    assert(0 <= amount as int * FEE_PERCENTAGE as int / 100 <= amount) by (nonlinear_arith)
        requires
            0 <= amount,
            FEE_PERCENTAGE <= 100,
    ;
}

/// The transfers of a donation move exactly the fee and the streamer's share.
pub proof fn lemma_payouts_total(source: Pubkey, fee_dest: Pubkey, streamer_dest: Pubkey, fee: u64, streamer_amount: u64)
    ensures
        total(payouts(source, fee_dest, streamer_dest, fee, streamer_amount)) == fee + streamer_amount,
{
    let f = Transfer { from: source, to: fee_dest, amount: fee };
    let s = Transfer { from: source, to: streamer_dest, amount: streamer_amount };
    let p = payouts(source, fee_dest, streamer_dest, fee, streamer_amount);
    reveal_with_fuel(total, 3);
    if fee > 0 && streamer_amount > 0 {
        assert(p =~= seq![f, s]);
        assert(p.drop_last() =~= seq![f]);
        assert(seq![f].drop_last() =~= Seq::<Transfer>::empty());
    } else if fee > 0 {
        assert(p =~= seq![f]);
        assert(p.drop_last() =~= Seq::<Transfer>::empty());
    } else if streamer_amount > 0 {
        assert(p =~= seq![s]);
        assert(p.drop_last() =~= Seq::<Transfer>::empty());
    } else {
        assert(p =~= Seq::<Transfer>::empty());
    }
}

/// A successful native donation moves exactly the donated amount: the fee and
/// the streamer's share add up to it, so no value is made or lost.
pub proof fn donate_conserves_amount(
    before: Donate,
    after: Donate,
    amount: u64,
    message: String,
    timestamp: i64,
    r: Result<DonationOutcome, ProgramError>,
)
    requires
        donate_result(before, after, amount, message, timestamp, r),
        r is Ok,
    ensures
        total(r->Ok_0.transfers@) == amount,
{
    lemma_fee_bounds(amount);
    let fee = fee_of(amount as int);
    lemma_payouts_total(before.donor, before.fee_collector, before.streamer_wallet, fee as u64, (amount - fee) as u64);
}

/// A successful token donation moves exactly the donated amount: the fee and
/// the streamer's share add up to it, so no value is made or lost.
pub proof fn donate_with_token_conserves_amount(
    before: DonateWithToken,
    after: DonateWithToken,
    amount: u64,
    message: String,
    timestamp: i64,
    r: Result<DonationOutcome, ProgramError>,
)
    requires
        donate_with_token_result(before, after, amount, message, timestamp, r),
        r is Ok,
    ensures
        total(r->Ok_0.transfers@) == amount,
{
    lemma_fee_bounds(amount);
    let fee = fee_of(amount as int);
    lemma_payouts_total(
        before.donor_token_account.key,
        before.fee_collector_token_account.key,
        before.streamer_token_account.key,
        fee as u64,
        (amount - fee) as u64,
    );
}

/// Where `amount * FEE_PERCENTAGE` is below 100 the fee is zero: no transfer
/// goes to the fee collector, and the whole amount goes to the streamer.
pub proof fn small_donation_pays_no_fee(source: Pubkey, fee_dest: Pubkey, streamer_dest: Pubkey, amount: u64)
    requires
        amount * FEE_PERCENTAGE < 100,
    ensures
        fee_fits(amount as int),
        fee_of(amount as int) == 0,
        payouts(source, fee_dest, streamer_dest, 0, amount) == (if amount > 0 {
            seq![Transfer { from: source, to: streamer_dest, amount }]
        } else {
            Seq::<Transfer>::empty()
        }),
{
    assert(payouts(source, fee_dest, streamer_dest, 0, amount) =~= (if amount > 0 {
        seq![Transfer { from: source, to: streamer_dest, amount }]
    } else {
        Seq::<Transfer>::empty()
    }));
}

/// One numbered donation: it takes the streamer's count as its number, and
/// the count goes up by one, the rest of the record unchanged.
pub open spec fn numbered_step(before: Streamer, after: Streamer, id: u64) -> bool {
    &&& id == before.donation_count
    &&& before.donation_count < u64::MAX
    &&& after == (Streamer { donation_count: (before.donation_count + 1) as u64, ..before })
}

/// A successful native donation is one numbered step of its streamer.
pub proof fn donate_numbers_next(
    before: Donate,
    after: Donate,
    amount: u64,
    message: String,
    timestamp: i64,
    r: Result<DonationOutcome, ProgramError>,
)
    requires
        donate_result(before, after, amount, message, timestamp, r),
        r is Ok,
    ensures
        numbered_step(before.streamer, after.streamer, r->Ok_0.donation.donation_id),
{
}

/// A successful token donation is one numbered step of its streamer.
pub proof fn donate_with_token_numbers_next(
    before: DonateWithToken,
    after: DonateWithToken,
    amount: u64,
    message: String,
    timestamp: i64,
    r: Result<DonationOutcome, ProgramError>,
)
    requires
        donate_with_token_result(before, after, amount, message, timestamp, r),
        r is Ok,
    ensures
        numbered_step(before.streamer, after.streamer, r->Ok_0.donation.donation_id),
{
}

/// Registration starts a streamer with no donations.
pub proof fn register_starts_at_zero(before: RegisterStreamer, after: RegisterStreamer, r: Result<StreamerRegistered, ProgramError>)
    requires
        register_result(before, after, r),
        r is Ok,
    ensures
        after.streamer is Some,
        after.streamer->Some_0.donation_count == 0,
        after.streamer->Some_0.wallet == before.streamer_wallet,
{
}

/// Donation numbers run 0, 1, 2, ... without gaps or repeats: where a
/// streamer starts with no donations and every donation of a run is a
/// numbered step from the state that the previous one left, the donation at
/// position `i` has number `i`, and the count ends at the length of the run.
pub proof fn donation_ids_sequential(states: Seq<Streamer>, ids: Seq<u64>)
    requires
        states.len() == ids.len() + 1,
        states[0].donation_count == 0,
        forall|i: int| 0 <= i < ids.len() ==> #[trigger] numbered_step(states[i], states[i + 1], ids[i]),
    ensures
        forall|i: int| 0 <= i < ids.len() ==> ids[i] == i,
        states.last().donation_count == ids.len(),
    decreases ids.len(),
{
    if ids.len() > 0 {
        let n = ids.len() - 1;
        let s0 = states.drop_last();
        let i0 = ids.drop_last();
        assert forall|i: int| 0 <= i < i0.len() implies #[trigger] numbered_step(s0[i], s0[i + 1], i0[i]) by {
            assert(numbered_step(states[i], states[i + 1], ids[i]));
        }
        donation_ids_sequential(s0, i0);
        assert(numbered_step(states[n], states[n + 1], ids[n]));
        assert forall|i: int| 0 <= i < ids.len() implies ids[i] == i by {
            if i < n {
                assert(ids[i] == i0[i]);
            }
        }
    }
}

/// Registering a wallet that is registered already fails and leaves the
/// existing record as it was.
pub proof fn register_again_fails(before: RegisterStreamer, after: RegisterStreamer, r: Result<StreamerRegistered, ProgramError>)
    requires
        before.streamer is Some,
        register_result(before, after, r),
    ensures
        r == Err::<StreamerRegistered, _>(ProgramError::AccountAlreadyInitialized),
        after == before,
{
}

/// A second registration after a successful one fails and changes nothing.
pub proof fn register_twice_fails(
    start: RegisterStreamer,
    first: RegisterStreamer,
    r1: Result<StreamerRegistered, ProgramError>,
    second: RegisterStreamer,
    r2: Result<StreamerRegistered, ProgramError>,
)
    requires
        register_result(start, first, r1),
        r1 is Ok,
        register_result(first, second, r2),
    ensures
        r2 == Err::<StreamerRegistered, _>(ProgramError::AccountAlreadyInitialized),
        second == first,
{
}

/// A native donation while the program is paused fails with `Paused`: the
/// streamer's count stays as it was and no transfer is made.
pub proof fn paused_donate_fails(
    before: Donate,
    after: Donate,
    amount: u64,
    message: String,
    timestamp: i64,
    r: Result<DonationOutcome, ProgramError>,
)
    requires
        before.config.paused,
        donate_result(before, after, amount, message, timestamp, r),
    ensures
        r == Err::<DonationOutcome, _>(ProgramError::Custom(StreamerDonationError::Paused)),
        after == before,
{
}

/// A token donation while the program is paused fails with `Paused`: the
/// streamer's count stays as it was and no transfer is made.
pub proof fn paused_donate_with_token_fails(
    before: DonateWithToken,
    after: DonateWithToken,
    amount: u64,
    message: String,
    timestamp: i64,
    r: Result<DonationOutcome, ProgramError>,
)
    requires
        before.config.paused,
        donate_with_token_result(before, after, amount, message, timestamp, r),
    ensures
        r == Err::<DonationOutcome, _>(ProgramError::Custom(StreamerDonationError::Paused)),
        after == before,
{
}

/// Only the authority can pause, and pausing a paused program fails; a
/// failed pause changes nothing.
pub proof fn pause_guarded(before: Pause, after: Pause, r: Result<(), ProgramError>)
    requires
        pause_result(before, after, r),
    ensures
        r is Ok ==> before.authority@ == before.config.authority@,
        before.authority@ != before.config.authority@ ==> r == Err::<(), _>(
            ProgramError::Custom(StreamerDonationError::Unauthorized),
        ),
        before.config.paused ==> r is Err,
        r is Err ==> after == before,
{
}

/// Only the authority can unpause, and unpausing an active program fails; a
/// failed unpause changes nothing.
pub proof fn unpause_guarded(before: Unpause, after: Unpause, r: Result<(), ProgramError>)
    requires
        unpause_result(before, after, r),
    ensures
        r is Ok ==> before.authority@ == before.config.authority@,
        before.authority@ != before.config.authority@ ==> r == Err::<(), _>(
            ProgramError::Custom(StreamerDonationError::Unauthorized),
        ),
        !before.config.paused ==> r is Err,
        r is Err ==> after == before,
{
}

/// The native minimum is inclusive: one unit below it fails with
/// `BelowMinimumDonation`; exactly the minimum succeeds wherever the accounts
/// pass their checks, the message fits and the record can be made.
pub proof fn native_minimum_inclusive(
    before: Donate,
    after: Donate,
    amount: u64,
    message: String,
    timestamp: i64,
    r: Result<DonationOutcome, ProgramError>,
)
    requires
        donate_result(before, after, amount, message, timestamp, r),
        account_failure(before) is None,
    ensures
        amount + 1 == MIN_DONATION_AMOUNT ==> r == Err::<DonationOutcome, _>(
            ProgramError::Custom(StreamerDonationError::BelowMinimumDonation),
        ),
        amount == MIN_DONATION_AMOUNT && message@.len() <= MAX_MESSAGE_LENGTH && record_failure(
            before.streamer,
            before.program_id@,
        ) is None ==> r is Ok,
{
}

/// The token minimum is inclusive: one unit below it fails with
/// `BelowMinimumDonation`; exactly the minimum succeeds wherever the accounts
/// pass their checks, the message fits and the record can be made.
pub proof fn token_minimum_inclusive(
    before: DonateWithToken,
    after: DonateWithToken,
    amount: u64,
    message: String,
    timestamp: i64,
    r: Result<DonationOutcome, ProgramError>,
)
    requires
        donate_with_token_result(before, after, amount, message, timestamp, r),
        token_account_failure(before) is None,
    ensures
        amount + 1 == MIN_SPL_DONATION_AMOUNT ==> r == Err::<DonationOutcome, _>(
            ProgramError::Custom(StreamerDonationError::BelowMinimumDonation),
        ),
        amount == MIN_SPL_DONATION_AMOUNT && message@.len() <= MAX_MESSAGE_LENGTH && record_failure(
            before.streamer,
            before.program_id@,
        ) is None ==> r is Ok,
{
}

/// A message of exactly the maximum length is accepted; one character more
/// fails with `MessageTooLong`, wherever the accounts pass their checks and
/// the amount meets the minimum.
pub proof fn message_limit_inclusive(
    before: Donate,
    after: Donate,
    amount: u64,
    message: String,
    timestamp: i64,
    r: Result<DonationOutcome, ProgramError>,
)
    requires
        donate_result(before, after, amount, message, timestamp, r),
        account_failure(before) is None,
        amount >= MIN_DONATION_AMOUNT,
    ensures
        message@.len() == MAX_MESSAGE_LENGTH + 1 ==> r == Err::<DonationOutcome, _>(
            ProgramError::Custom(StreamerDonationError::MessageTooLong),
        ),
        message@.len() == MAX_MESSAGE_LENGTH && fee_fits(amount as int) && record_failure(
            before.streamer,
            before.program_id@,
        ) is None ==> r is Ok,
{
}

} // verus!
