use streamer_donation::constants::{MAX_MESSAGE_LENGTH, MIN_DONATION_AMOUNT, MIN_SPL_DONATION_AMOUNT};
use streamer_donation::errors::{ProgramError, StreamerDonationError};
use streamer_donation::instructions::common::{DonationOutcome, Transfer};
use streamer_donation::instructions::donate::Donate;
use streamer_donation::instructions::donate_with_token::{DonateWithToken, Mint, TokenAccount};
use streamer_donation::instructions::initialize::Initialize;
use streamer_donation::instructions::pause::Pause;
use streamer_donation::instructions::register_streamer::RegisterStreamer;
use streamer_donation::instructions::unpause::Unpause;
use streamer_donation::pubkey::Pubkey;
use streamer_donation::state::config::Config;
use streamer_donation::state::streamer::Streamer;
use streamer_donation::{donate, donate_with_token, initialize, pause, register_streamer, unpause};

fn key(b: u8) -> Pubkey {
    Pubkey::new_from_array([b; 32])
}

fn program_id() -> Pubkey {
    key(9)
}

fn setup() -> (Config, Streamer) {
    let mut init = Initialize { config: None, authority: key(1), program_id: program_id() };
    initialize(&mut init).unwrap();
    let mut reg = RegisterStreamer { streamer: None, streamer_wallet: key(2), program_id: program_id() };
    register_streamer(&mut reg).unwrap();
    (init.config.unwrap(), reg.streamer.unwrap())
}

fn native_ctx(config: Config, streamer: Streamer) -> Donate {
    Donate {
        config,
        streamer,
        donor: key(3),
        streamer_wallet: streamer.wallet,
        fee_collector: config.fee_collector,
        program_id: program_id(),
    }
}

fn token_ctx(config: Config, streamer: Streamer) -> DonateWithToken {
    let mint = key(4);
    DonateWithToken {
        config,
        streamer,
        donor: key(3),
        streamer_wallet: streamer.wallet,
        mint: Mint { key: mint, decimals: 6 },
        donor_token_account: TokenAccount { key: key(5), mint, owner: key(3) },
        streamer_token_account: TokenAccount { key: key(6), mint, owner: streamer.wallet },
        fee_collector_token_account: TokenAccount { key: key(7), mint, owner: config.fee_collector },
        fee_collector: config.fee_collector,
        program_id: program_id(),
    }
}

fn amounts(o: &DonationOutcome) -> Vec<u64> {
    o.transfers.iter().map(|t| t.amount).collect()
}

#[test]
fn scenario_initialize_register_and_two_donations() {
    let mut init = Initialize { config: None, authority: key(1), program_id: program_id() };
    initialize(&mut init).unwrap();
    let config = init.config.unwrap();
    assert_eq!(config.authority, key(1));
    assert_eq!(config.fee_collector, key(1));
    assert!(!config.paused);

    let mut un = Unpause { config, authority: key(1) };
    assert_eq!(unpause(&mut un), Err(ProgramError::Custom(StreamerDonationError::NotPaused)));
    assert_eq!(un.config, config);

    let mut reg = RegisterStreamer { streamer: None, streamer_wallet: key(2), program_id: program_id() };
    let ev = register_streamer(&mut reg).unwrap();
    assert_eq!(ev.streamer, key(2));
    let streamer = reg.streamer.unwrap();
    assert_eq!(streamer.donation_count, 0);

    let mut ctx = native_ctx(config, streamer);
    let o = donate(&mut ctx, 1000, "hi".to_string(), 77).unwrap();
    assert_eq!(
        o.transfers,
        vec![
            Transfer { from: key(3), to: key(1), amount: 50 },
            Transfer { from: key(3), to: key(2), amount: 950 },
        ]
    );
    assert_eq!(o.donation.donation_id, 0);
    assert_eq!(o.donation.amount, 1000);
    assert_eq!(o.donation.timestamp, 77);
    assert_eq!(o.donation.message, "hi");
    assert_eq!(o.donation.token_mint, Pubkey::default_key());
    assert_eq!(ctx.streamer.donation_count, 1);

    let o2 = donate(&mut ctx, 2000, String::new(), 78).unwrap();
    assert_eq!(amounts(&o2), vec![100, 1900]);
    assert_eq!(o2.donation.donation_id, 1);
    assert_eq!(ctx.streamer.donation_count, 2);
    assert_ne!(o.address, o2.address);
}

#[test]
fn scenario_pause_blocks_then_unpause_allows() {
    let (config, streamer) = setup();
    let mut p = Pause { config, authority: key(1) };
    pause(&mut p).unwrap();
    assert!(p.config.paused);

    let mut ctx = native_ctx(p.config, streamer);
    let before = ctx;
    assert_eq!(
        donate(&mut ctx, 1000, "x".to_string(), 1),
        Err(ProgramError::Custom(StreamerDonationError::Paused))
    );
    assert_eq!(ctx, before);

    let mut u = Unpause { config: p.config, authority: key(1) };
    unpause(&mut u).unwrap();
    assert!(!u.config.paused);

    let mut ctx = native_ctx(u.config, streamer);
    let o = donate(&mut ctx, 1000, "x".to_string(), 1).unwrap();
    assert_eq!(o.donation.donation_id, 0);
    assert_eq!(ctx.streamer.donation_count, 1);
}

#[test]
fn fee_and_share_add_up() {
    let (config, streamer) = setup();
    for amount in [MIN_DONATION_AMOUNT, 19, 20, 21, 99, 101, 12345, 999_999_999] {
        let mut ctx = native_ctx(config, streamer);
        let o = donate(&mut ctx, amount, String::new(), 0).unwrap();
        let total: u64 = amounts(&o).iter().sum();
        assert_eq!(total, amount);
    }
}

#[test]
fn small_amount_pays_no_fee() {
    let (config, streamer) = setup();
    let mut ctx = native_ctx(config, streamer);
    let o = donate(&mut ctx, 19, String::new(), 0).unwrap();
    assert_eq!(o.transfers, vec![Transfer { from: key(3), to: key(2), amount: 19 }]);
    let mut tctx = token_ctx(config, streamer);
    let o = donate_with_token(&mut tctx, 1, String::new(), 0).unwrap();
    assert_eq!(o.transfers, vec![Transfer { from: key(5), to: key(6), amount: 1 }]);
}

#[test]
fn donation_ids_run_without_gaps() {
    let (config, streamer) = setup();
    let mut ctx = native_ctx(config, streamer);
    for i in 0..5u64 {
        let o = donate(&mut ctx, 100, String::new(), 0).unwrap();
        assert_eq!(o.donation.donation_id, i);
        assert_eq!(ctx.streamer.donation_count, i + 1);
    }
    let mut tctx = token_ctx(config, ctx.streamer);
    let o = donate_with_token(&mut tctx, 100, String::new(), 0).unwrap();
    assert_eq!(o.donation.donation_id, 5);
    assert_eq!(tctx.streamer.donation_count, 6);
}

#[test]
fn register_again_fails_and_keeps_record() {
    let mut reg = RegisterStreamer { streamer: None, streamer_wallet: key(2), program_id: program_id() };
    register_streamer(&mut reg).unwrap();
    let mut s = reg.streamer.unwrap();
    s.donation_count = 4;
    reg.streamer = Some(s);
    let before = reg;
    assert_eq!(register_streamer(&mut reg), Err(ProgramError::AccountAlreadyInitialized));
    assert_eq!(reg, before);
}

#[test]
fn initialize_twice_fails() {
    let mut init = Initialize { config: None, authority: key(1), program_id: program_id() };
    initialize(&mut init).unwrap();
    let before = init;
    assert_eq!(initialize(&mut init), Err(ProgramError::AccountAlreadyInitialized));
    assert_eq!(init, before);
}

#[test]
fn paused_token_donation_fails() {
    let (mut config, streamer) = setup();
    config.paused = true;
    let mut ctx = token_ctx(config, streamer);
    let before = ctx;
    assert_eq!(
        donate_with_token(&mut ctx, 100, String::new(), 0),
        Err(ProgramError::Custom(StreamerDonationError::Paused))
    );
    assert_eq!(ctx, before);
}

#[test]
fn pause_twice_and_unpause_twice_fail() {
    let (config, _) = setup();
    let mut p = Pause { config, authority: key(1) };
    pause(&mut p).unwrap();
    let paused = p.config;
    assert_eq!(pause(&mut p), Err(ProgramError::Custom(StreamerDonationError::Paused)));
    assert_eq!(p.config, paused);
    let mut u = Unpause { config: paused, authority: key(1) };
    unpause(&mut u).unwrap();
    let active = u.config;
    assert_eq!(unpause(&mut u), Err(ProgramError::Custom(StreamerDonationError::NotPaused)));
    assert_eq!(u.config, active);
}

#[test]
fn only_authority_pauses_or_unpauses() {
    let (config, _) = setup();
    let mut p = Pause { config, authority: key(8) };
    assert_eq!(pause(&mut p), Err(ProgramError::Custom(StreamerDonationError::Unauthorized)));
    assert_eq!(p.config, config);
    let mut paused = config;
    paused.paused = true;
    let mut u = Unpause { config: paused, authority: key(8) };
    assert_eq!(unpause(&mut u), Err(ProgramError::Custom(StreamerDonationError::Unauthorized)));
    assert_eq!(u.config, paused);
}

#[test]
fn native_minimum_is_inclusive() {
    let (config, streamer) = setup();
    let mut ctx = native_ctx(config, streamer);
    assert_eq!(
        donate(&mut ctx, MIN_DONATION_AMOUNT - 1, String::new(), 0),
        Err(ProgramError::Custom(StreamerDonationError::BelowMinimumDonation))
    );
    assert_eq!(ctx.streamer.donation_count, 0);
    assert!(donate(&mut ctx, MIN_DONATION_AMOUNT, String::new(), 0).is_ok());
}

#[test]
fn token_minimum_is_inclusive() {
    let (config, streamer) = setup();
    let mut ctx = token_ctx(config, streamer);
    assert_eq!(
        donate_with_token(&mut ctx, MIN_SPL_DONATION_AMOUNT - 1, String::new(), 0),
        Err(ProgramError::Custom(StreamerDonationError::BelowMinimumDonation))
    );
    let o = donate_with_token(&mut ctx, MIN_SPL_DONATION_AMOUNT, String::new(), 0).unwrap();
    assert_eq!(o.donation.token_mint, key(4));
}

#[test]
fn message_of_280_chars_accepted_281_rejected() {
    let (config, streamer) = setup();
    let mut ctx = native_ctx(config, streamer);
    let ok = "a".repeat(MAX_MESSAGE_LENGTH);
    assert_eq!(ok.chars().count(), 280);
    assert!(donate(&mut ctx, 1000, ok, 0).is_ok());
    let long = "a".repeat(281);
    assert_eq!(
        donate(&mut ctx, 1000, long, 0),
        Err(ProgramError::Custom(StreamerDonationError::MessageTooLong))
    );
}

#[test]
fn message_length_counts_characters() {
    let (config, streamer) = setup();
    let mut ctx = native_ctx(config, streamer);
    let wide = "é".repeat(280);
    assert_eq!(wide.len(), 560);
    assert!(donate(&mut ctx, 1000, wide, 0).is_ok());
    assert_eq!(
        donate(&mut ctx, 1000, "é".repeat(281), 0),
        Err(ProgramError::Custom(StreamerDonationError::MessageTooLong))
    );
}

#[test]
fn fee_multiply_overflow() {
    let (config, streamer) = setup();
    let mut ctx = native_ctx(config, streamer);
    assert_eq!(
        donate(&mut ctx, u64::MAX / 5 + 1, String::new(), 0),
        Err(ProgramError::Custom(StreamerDonationError::Overflow))
    );
    assert!(donate(&mut ctx, u64::MAX / 5, String::new(), 0).is_ok());
}

#[test]
fn counter_overflow() {
    let (config, mut streamer) = setup();
    streamer.donation_count = u64::MAX;
    let mut ctx = native_ctx(config, streamer);
    let before = ctx;
    assert_eq!(
        donate(&mut ctx, 1000, String::new(), 0),
        Err(ProgramError::Custom(StreamerDonationError::Overflow))
    );
    assert_eq!(ctx, before);
}

#[test]
fn wrong_wallets_are_refused() {
    let (config, streamer) = setup();
    let mut ctx = native_ctx(config, streamer);
    ctx.streamer_wallet = key(8);
    assert_eq!(donate(&mut ctx, 1000, String::new(), 0), Err(ProgramError::ConstraintRaw));
    let mut ctx = native_ctx(config, streamer);
    ctx.fee_collector = key(8);
    assert_eq!(donate(&mut ctx, 1000, String::new(), 0), Err(ProgramError::ConstraintRaw));
}

#[test]
fn token_accounts_are_checked() {
    let (config, streamer) = setup();
    let mut ctx = token_ctx(config, streamer);
    ctx.streamer_token_account.mint = key(8);
    assert_eq!(donate_with_token(&mut ctx, 100, String::new(), 0), Err(ProgramError::ConstraintTokenMint));
    let mut ctx = token_ctx(config, streamer);
    ctx.donor_token_account.owner = key(8);
    assert_eq!(donate_with_token(&mut ctx, 100, String::new(), 0), Err(ProgramError::ConstraintTokenOwner));
    let mut ctx = token_ctx(config, streamer);
    ctx.fee_collector = key(8);
    assert_eq!(donate_with_token(&mut ctx, 100, String::new(), 0), Err(ProgramError::ConstraintRaw));
}

#[test]
fn token_donation_moves_between_token_accounts() {
    let (config, streamer) = setup();
    let mut ctx = token_ctx(config, streamer);
    let o = donate_with_token(&mut ctx, 1000, "gg".to_string(), 5).unwrap();
    assert_eq!(
        o.transfers,
        vec![
            Transfer { from: key(5), to: key(7), amount: 50 },
            Transfer { from: key(5), to: key(6), amount: 950 },
        ]
    );
    assert_eq!(o.event.donation_id, 0);
    assert_eq!(o.event.token_mint, key(4));
    assert_eq!(o.event.message, "gg");
    assert_eq!(o.event.streamer, key(2));
    assert_eq!(o.event.donor, key(3));
}
