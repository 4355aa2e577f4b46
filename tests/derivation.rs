use std::str::FromStr;

use anchor_lang::prelude::Pubkey as LedgerKey;
use streamer_donation::derivation::{config_address, donation_address, streamer_address, to_le_bytes};
use streamer_donation::fee::split_fee;
use streamer_donation::pubkey::Pubkey;

fn program() -> (Pubkey, LedgerKey) {
    let id = LedgerKey::from_str("FMrnRTKyLZPFK5BgZB7aGA95RVa3pVyvCtbR8oMov2n9").unwrap();
    (Pubkey::new_from_array(id.to_bytes()), id)
}

#[test]
fn config_address_matches_ledger_derivation() {
    let (pid, id) = program();
    let (addr, bump) = config_address(&pid).unwrap();
    let (expected, expected_bump) = LedgerKey::find_program_address(&[b"config"], &id);
    assert_eq!(addr.bytes, expected.to_bytes());
    assert_eq!(bump, expected_bump);
    assert_ne!(addr, pid);
}

#[test]
fn streamer_address_matches_ledger_derivation() {
    let (pid, id) = program();
    let wallet = Pubkey::new_from_array([2; 32]);
    let (addr, bump) = streamer_address(&pid, &wallet).unwrap();
    let (expected, expected_bump) = LedgerKey::find_program_address(&[b"streamer", &[2u8; 32]], &id);
    assert_eq!(addr.bytes, expected.to_bytes());
    assert_eq!(bump, expected_bump);
}

#[test]
fn donation_address_matches_ledger_derivation() {
    let (pid, id) = program();
    let wallet = Pubkey::new_from_array([2; 32]);
    let (addr, bump) = donation_address(&pid, &wallet, 3).unwrap();
    let (expected, expected_bump) =
        LedgerKey::find_program_address(&[b"donation", &[2u8; 32], &3u64.to_le_bytes()], &id);
    assert_eq!(addr.bytes, expected.to_bytes());
    assert_eq!(bump, expected_bump);
    let (other, _) = donation_address(&pid, &wallet, 4).unwrap();
    assert_ne!(addr, other);
}

#[test]
fn le_bytes_of_counter() {
    assert_eq!(to_le_bytes(0x0102_0304_0506_0708), vec![8, 7, 6, 5, 4, 3, 2, 1]);
    assert_eq!(to_le_bytes(0), vec![0; 8]);
}

#[test]
fn split_fee_values() {
    assert_eq!(split_fee(1000), Ok((50, 950)));
    assert_eq!(split_fee(2000), Ok((100, 1900)));
    assert_eq!(split_fee(19), Ok((0, 19)));
    assert_eq!(split_fee(20), Ok((1, 19)));
}

#[test]
fn key_equality() {
    let a = Pubkey::new_from_array([1; 32]);
    let mut bytes = [1u8; 32];
    bytes[31] = 2;
    let b = Pubkey::new_from_array(bytes);
    assert!(a.key_eq(&a));
    assert!(!a.key_eq(&b));
    assert_eq!(a.to_bytes(), vec![1u8; 32]);
}
