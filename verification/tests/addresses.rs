use std::str::FromStr;

use anchor_lang::prelude::Pubkey;
use timed_escrow_program::address::{
    authority_signer_seeds, custody_address, escrow_address, find_custody, find_escrow, Address,
    AUTH_TAG, ESCROW_TAG, MINT_TAG, PROGRAM_ID, VAULT_TAG,
};
use timed_escrow_program::contexts::Make;
use timed_escrow_program::custody::{Custody, MakeCustody};
use timed_escrow_program::state::Escrow;
use timed_escrow_program::table::Key;

fn program() -> Pubkey {
    Pubkey::from_str("4PK12mvcUeybBJ1rBYocsKRALj8KdCoGH5Kn2tCzn1Mw").unwrap()
}

#[test]
fn program_id_is_the_declared_one() {
    assert_eq!(program().to_bytes(), PROGRAM_ID);
}

#[test]
fn tags_spell_their_names() {
    assert_eq!(&ESCROW_TAG[..], b"escrow");
    assert_eq!(&AUTH_TAG[..], b"auth");
    assert_eq!(&VAULT_TAG[..], b"vault");
    assert_eq!(&MINT_TAG[..], b"mint");
}

#[test]
fn addresses_compare_by_their_bytes() {
    let a = Address::new([7; 32]);
    let mut bytes = [7u8; 32];
    assert!(a.same(&Address::new(bytes)));
    bytes[31] = 8;
    assert!(!a.same(&Address::new(bytes)));
    bytes[31] = 7;
    bytes[0] = 0;
    assert!(!a.same(&Address::new(bytes)));
    assert_eq!(a.to_vec(), vec![7u8; 32]);
}

#[test]
fn escrow_address_is_derived_from_maker_and_seed() {
    let maker = Address::new([9; 32]);
    let seed: u64 = 0x1122_3344_5566_7788;
    let (key, bump) = Pubkey::find_program_address(
        &[b"escrow", &[9u8; 32], &seed.to_le_bytes()],
        &program(),
    );
    let found = find_escrow(&maker, seed).unwrap();
    assert_eq!(found.address.bytes, key.to_bytes());
    assert_eq!(found.bump, bump);
    assert_ne!(found.address, maker);
    assert_ne!(find_escrow(&maker, seed + 1).unwrap().address, found.address);
    assert_ne!(find_escrow(&Address::new([10; 32]), seed).unwrap().address, found.address);
}

#[test]
fn custody_addresses_hang_off_the_record_address() {
    let escrow = Address::new([5; 32]);
    for (tag, name) in [(&AUTH_TAG[..], &b"auth"[..]), (&VAULT_TAG[..], &b"vault"[..]), (&MINT_TAG[..], &b"mint"[..])] {
        let (key, bump) = Pubkey::find_program_address(&[name, &[5u8; 32]], &program());
        let found = find_custody(tag, &escrow).unwrap();
        assert_eq!(found.address.bytes, key.to_bytes());
        assert_eq!(found.bump, bump);
    }
    let auth = find_custody(&AUTH_TAG, &escrow).unwrap().address;
    let vault = find_custody(&VAULT_TAG, &escrow).unwrap().address;
    let mint = find_custody(&MINT_TAG, &escrow).unwrap().address;
    assert!(auth != vault && vault != mint && auth != mint);
}

#[test]
fn stored_bump_recreates_the_found_address() {
    let maker = Address::new([9; 32]);
    let found = find_escrow(&maker, 42).unwrap();
    assert_eq!(escrow_address(&maker, 42, found.bump), Some(found.address));
    let auth = find_custody(&AUTH_TAG, &found.address).unwrap();
    assert_eq!(custody_address(&AUTH_TAG, &found.address, auth.bump), Some(auth.address));
    let direct = Pubkey::create_program_address(
        &[b"auth", &found.address.bytes, &[auth.bump]],
        &program(),
    )
    .unwrap();
    assert_eq!(direct.to_bytes(), auth.address.bytes);
}

#[test]
fn another_bump_gives_another_address_or_none() {
    let maker = Address::new([9; 32]);
    let found = find_escrow(&maker, 42).unwrap();
    for bump in 0..=255u8 {
        if bump != found.bump {
            assert_ne!(escrow_address(&maker, 42, bump), Some(found.address));
        }
        if bump > found.bump {
            assert_eq!(escrow_address(&maker, 42, bump), None);
        }
    }
}

#[test]
fn seeds_too_long_give_no_address() {
    let escrow = Address::new([5; 32]);
    let long_tag = [1u8; 33];
    assert_eq!(find_custody(&long_tag, &escrow), None);
    assert_eq!(custody_address(&long_tag, &escrow, 255), None);
}

#[test]
fn authority_signs_with_tag_record_address_and_bump() {
    let escrow = Address::new([5; 32]);
    let seeds = authority_signer_seeds(&escrow, 250);
    assert_eq!(seeds, vec![b"auth".to_vec(), vec![5u8; 32], vec![250u8]]);
}

#[test]
fn make_custody_finds_all_four_and_checks_the_names() {
    let maker = Address::new([1; 32]);
    let escrow = find_escrow(&maker, 3).unwrap();
    let custody = MakeCustody::find(&maker, 3, &escrow.address);
    assert_eq!(custody.escrow, Some(escrow));
    assert_eq!(custody.auth, find_custody(&AUTH_TAG, &escrow.address));
    assert_eq!(custody.vault, find_custody(&VAULT_TAG, &escrow.address));
    assert_eq!(custody.taker_mint, find_custody(&MINT_TAG, &escrow.address));
    let ctx = Make {
        maker,
        maker_mint: Address::new([2; 32]),
        taker_mint: custody.taker_mint.unwrap().address,
        taker_ata: Address::new([3; 32]),
        taker: Address::new([4; 32]),
        maker_ata: Address::new([5; 32]),
        auth: custody.auth.unwrap().address,
        vault: custody.vault.unwrap().address,
        escrow: escrow.address,
    };
    let bumps = custody.check(&ctx).unwrap();
    assert_eq!(bumps.escrow, escrow.bump);
    assert_eq!(bumps.auth, custody.auth.unwrap().bump);
    assert_eq!(bumps.vault, custody.vault.unwrap().bump);
    assert_eq!(bumps.taker_mint, custody.taker_mint.unwrap().bump);
    assert_eq!(custody.check(&Make { vault: ctx.auth, ..ctx }), None);
    assert_eq!(custody.check(&Make { auth: ctx.vault, ..ctx }), None);
    assert_eq!(custody.check(&Make { taker_mint: ctx.maker_mint, ..ctx }), None);
    assert_eq!(custody.check(&Make { escrow: ctx.vault, ..ctx }), None);
}

#[test]
fn custody_of_a_record_is_recreated_from_its_bumps() {
    let maker = Address::new([1; 32]);
    let escrow = find_escrow(&maker, 3).unwrap();
    let auth = find_custody(&AUTH_TAG, &escrow.address).unwrap();
    let vault = find_custody(&VAULT_TAG, &escrow.address).unwrap();
    let record = Escrow {
        maker,
        maker_mint: Address::new([2; 32]),
        taker_mint: Address::new([3; 32]),
        taker: Address::new([4; 32]),
        offer_amount: 1,
        seed: 3,
        expiry: 10,
        locking_period: 5,
        auth_bump: auth.bump,
        vault_bump: vault.bump,
        escrow_bump: escrow.bump,
        created_time: 1,
    };
    let custody = Custody::of(&record, &maker, &escrow.address);
    assert_eq!(custody.escrow, Some(escrow.address));
    assert_eq!(custody.auth, Some(auth.address));
    assert_eq!(custody.vault, Some(vault.address));
    assert!(custody.check(&escrow.address, &auth.address, &vault.address));
    assert!(!custody.check(&escrow.address, &vault.address, &auth.address));
    let other = Custody::of(&record, &Address::new([8; 32]), &escrow.address);
    assert_ne!(other.escrow, Some(escrow.address));
    assert_eq!(Custody::none(), Custody { escrow: None, auth: None, vault: None });
}
