use anchor_lang::solana_program::hash::hash;
use timed_escrow_program::address::Address;
use timed_escrow_program::errors::EscrowError;
use timed_escrow_program::layout::DISCRIMINATOR;
use timed_escrow_program::state::{Escrow, PUBKEY_L, U64_L, U8_L};

fn sample() -> Escrow {
    Escrow {
        maker: Address::new([1; 32]),
        maker_mint: Address::new([2; 32]),
        taker_mint: Address::new([3; 32]),
        taker: Address::new([4; 32]),
        offer_amount: 1,
        seed: 0x0102_0304_0506_0708,
        expiry: 2_000,
        locking_period: 500,
        auth_bump: 254,
        vault_bump: 253,
        escrow_bump: 255,
        created_time: 1_000,
    }
}

#[test]
fn stored_size_is_172_bytes() {
    assert_eq!((PUBKEY_L, U64_L, U8_L), (32, 8, 1));
    assert_eq!(Escrow::LEN, 172);
}

#[test]
fn claim_is_open_strictly_before_expiry() {
    let e = sample();
    assert_eq!(e.check_expiry(0), Ok(()));
    assert_eq!(e.check_expiry(1_999), Ok(()));
    assert_eq!(e.check_expiry(2_000), Err(EscrowError::Expired));
    assert_eq!(e.check_expiry(2_001), Err(EscrowError::Expired));
    assert_eq!(e.check_expiry(u64::MAX), Err(EscrowError::Expired));
}

#[test]
fn expiry_of_zero_never_admits_a_claim() {
    let e = Escrow { expiry: 0, ..sample() };
    assert_eq!(e.check_expiry(0), Err(EscrowError::Expired));
}

#[test]
fn settlement_opens_at_creation_plus_locking_period() {
    let e = sample();
    assert_eq!(e.check_locked(0), Err(EscrowError::NotYetUnlockable));
    assert_eq!(e.check_locked(1_000), Err(EscrowError::NotYetUnlockable));
    assert_eq!(e.check_locked(1_499), Err(EscrowError::NotYetUnlockable));
    assert_eq!(e.check_locked(1_500), Ok(()));
    assert_eq!(e.check_locked(u64::MAX), Ok(()));
}

#[test]
fn zero_locking_period_unlocks_at_creation() {
    let e = Escrow { locking_period: 0, ..sample() };
    assert_eq!(e.check_locked(999), Err(EscrowError::NotYetUnlockable));
    assert_eq!(e.check_locked(1_000), Ok(()));
}

#[test]
fn locking_period_beyond_the_clock_never_unlocks() {
    let e = Escrow { created_time: 10, locking_period: u64::MAX, ..sample() };
    assert_eq!(e.check_locked(9), Err(EscrowError::NotYetUnlockable));
    assert_eq!(e.check_locked(u64::MAX), Err(EscrowError::NotYetUnlockable));
    let edge = Escrow { created_time: 1, locking_period: u64::MAX - 1, ..sample() };
    assert_eq!(edge.check_locked(u64::MAX - 1), Err(EscrowError::NotYetUnlockable));
    assert_eq!(edge.check_locked(u64::MAX), Ok(()));
}

#[test]
fn discriminator_is_the_hash_of_the_account_name() {
    let digest = hash(b"account:Escrow").to_bytes();
    assert_eq!(&digest[..8], &DISCRIMINATOR[..]);
}

#[test]
fn stored_form_lays_fields_out_in_order() {
    let bytes = sample().to_bytes();
    let mut expected: Vec<u8> = vec![31, 213, 123, 187, 186, 22, 218, 155];
    expected.extend([1u8; 32]);
    expected.extend([2u8; 32]);
    expected.extend([3u8; 32]);
    expected.extend([4u8; 32]);
    expected.push(1);
    expected.extend([8u8, 7, 6, 5, 4, 3, 2, 1]);
    expected.extend([0xd0u8, 0x07, 0, 0, 0, 0, 0, 0]);
    expected.extend([0xf4u8, 0x01, 0, 0, 0, 0, 0, 0]);
    expected.extend([254u8, 253, 255]);
    expected.extend([0xe8u8, 0x03, 0, 0, 0, 0, 0, 0]);
    assert_eq!(bytes.len(), 172);
    assert_eq!(bytes, expected);
}

#[test]
fn stored_form_reads_back() {
    let e = sample();
    assert_eq!(Escrow::from_bytes(&e.to_bytes()), Some(e));
    let other = Escrow { seed: u64::MAX, expiry: 0, created_time: u64::MAX, ..sample() };
    assert_eq!(Escrow::from_bytes(&other.to_bytes()), Some(other));
}

#[test]
fn reading_rejects_wrong_size_and_wrong_mark() {
    let good = sample().to_bytes();
    assert_eq!(Escrow::from_bytes(&[]), None);
    assert_eq!(Escrow::from_bytes(&good[..171]), None);
    let mut long = good.clone();
    long.push(0);
    assert_eq!(Escrow::from_bytes(&long), None);
    let mut marked = good.clone();
    marked[7] ^= 1;
    assert_eq!(Escrow::from_bytes(&marked), None);
    let mut first = good.clone();
    first[0] = 0;
    assert_eq!(Escrow::from_bytes(&first), None);
}
