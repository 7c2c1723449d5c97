use timed_escrow_program::address::Address;
use timed_escrow_program::errors::EscrowError;
use timed_escrow_program::ledger::{Authority, CloseAccount, Ledger, MintOne, Slot, Transfer};
use timed_escrow_program::table::{Key, Table};

const REFUSED: Result<(), EscrowError> = Err(EscrowError::ConstraintViolation);

fn a(n: u8) -> Address {
    Address::new([n; 32])
}

fn party(n: u8) -> Authority {
    Authority::party(a(n))
}

/// Accounts 1 and 2 owned by 11 and 12; asset 20 issued by 30; 50 units at 1.
fn small() -> Ledger {
    let mut l = Ledger::new();
    l.open_account(a(1), a(11)).unwrap();
    l.open_account(a(2), a(12)).unwrap();
    l.register_asset(a(20), party(30)).unwrap();
    l.issue(&a(20), &a(1), &a(30), 50).unwrap();
    l
}

#[test]
fn table_sets_gets_and_removes() {
    let mut t: Table<Address, u64> = Table::new();
    assert_eq!(t.get(&a(1)), None);
    t.set(a(1), 10);
    t.set(a(2), 20);
    t.set(a(1), 11);
    assert_eq!(t.get(&a(1)), Some(11));
    assert_eq!(t.get(&a(2)), Some(20));
    t.remove(&a(1));
    assert_eq!(t.get(&a(1)), None);
    assert_eq!(t.get(&a(2)), Some(20));
    t.remove(&a(3));
    assert_eq!(t.get(&a(2)), Some(20));
}

#[test]
fn authorities_differ_by_address_or_kind() {
    assert!(party(1).same(&Authority { address: a(1), derived: false }));
    assert!(Authority::derived(a(1)).same(&Authority { address: a(1), derived: true }));
    assert!(!party(1).same(&Authority::derived(a(1))));
    assert!(!party(1).same(&party(2)));
}

#[test]
fn slots_differ_by_holder_or_asset() {
    let s = Slot { holder: a(1), asset: a(2) };
    assert!(s.same(&Slot { holder: a(1), asset: a(2) }));
    assert!(!s.same(&Slot { holder: a(2), asset: a(2) }));
    assert!(!s.same(&Slot { holder: a(1), asset: a(1) }));
}

#[test]
fn new_ledger_is_empty() {
    let l = Ledger::new();
    assert_eq!(l.balance(&a(1), &a(20)), 0);
    assert_eq!(l.owner_of(&a(1)), None);
    assert_eq!(l.controller_of(&a(20)), None);
    assert_eq!(l.record(&a(1)), None);
    assert!(!l.is_owned_by(&a(1), &party(11)));
    assert!(!l.is_issued_by(&a(20), &party(30)));
}

#[test]
fn accounts_and_assets_are_registered_once() {
    let mut l = small();
    assert_eq!(l.owner_of(&a(1)), Some(party(11)));
    assert!(l.is_owned_by(&a(1), &party(11)));
    assert!(!l.is_owned_by(&a(1), &party(12)));
    assert!(!l.is_owned_by(&a(1), &Authority::derived(a(11))));
    assert_eq!(l.controller_of(&a(20)), Some(party(30)));
    assert!(l.is_issued_by(&a(20), &party(30)));
    assert!(!l.is_issued_by(&a(20), &Authority::derived(a(30))));
    assert!(!l.is_issued_by(&a(20), &party(31)));
    assert_eq!(l.open_account(a(1), a(12)), REFUSED);
    assert_eq!(l.owner_of(&a(1)), Some(party(11)));
    assert_eq!(l.register_asset(a(20), party(31)), REFUSED);
    assert_eq!(l.controller_of(&a(20)), Some(party(30)));
}

#[test]
fn a_class_of_a_derived_authority_is_not_issued_on_anyones_word() {
    let mut l = small();
    l.register_asset(a(21), Authority::derived(a(30))).unwrap();
    assert_eq!(l.issue(&a(21), &a(1), &a(30), 1), REFUSED);
    let m = MintOne { asset: a(21), to: a(1), authority: Authority::derived(a(30)) };
    assert_eq!(l.mint_one(&m), REFUSED);
    assert_eq!(l.mint_one(&MintOne { authority: party(30), ..m }), REFUSED);
    assert_eq!(l.balance(&a(1), &a(21)), 0);
}

#[test]
fn issue_needs_the_controller_an_open_account_and_room() {
    let mut l = small();
    assert_eq!(l.issue(&a(20), &a(1), &a(31), 1), REFUSED);
    assert_eq!(l.issue(&a(21), &a(1), &a(30), 1), REFUSED);
    assert_eq!(l.issue(&a(20), &a(3), &a(30), 1), REFUSED);
    assert_eq!(l.issue(&a(20), &a(1), &a(30), u64::MAX - 49), REFUSED);
    assert_eq!(l.balance(&a(1), &a(20)), 50);
    assert_eq!(l.issue(&a(20), &a(1), &a(30), u64::MAX - 50), Ok(()));
    assert_eq!(l.balance(&a(1), &a(20)), u64::MAX);
}

#[test]
fn mint_one_adds_exactly_one_unit() {
    let mut l = small();
    let m = MintOne { asset: a(20), to: a(2), authority: party(30) };
    assert_eq!(l.mint_one(&m), Ok(()));
    assert_eq!(l.mint_one(&m), Ok(()));
    assert_eq!(l.balance(&a(2), &a(20)), 2);
    assert_eq!(l.balance(&a(1), &a(20)), 50);
    assert_eq!(l.mint_one(&MintOne { authority: party(11), ..m }), REFUSED);
    assert_eq!(l.mint_one(&MintOne { authority: Authority::derived(a(30)), ..m }), REFUSED);
    assert_eq!(l.balance(&a(2), &a(20)), 2);
}

#[test]
fn transfer_moves_units_between_accounts() {
    let mut l = small();
    let t = Transfer { from: a(1), to: a(2), authority: party(11), asset: a(20), amount: 20 };
    assert_eq!(l.transfer(&t), Ok(()));
    assert_eq!(l.balance(&a(1), &a(20)), 30);
    assert_eq!(l.balance(&a(2), &a(20)), 20);
    assert_eq!(l.transfer(&Transfer { amount: 30, ..t }), Ok(()));
    assert_eq!(l.balance(&a(1), &a(20)), 0);
    assert_eq!(l.balance(&a(2), &a(20)), 50);
    assert_eq!(l.transfer(&Transfer { amount: 0, ..t }), Ok(()));
    assert_eq!(l.balance(&a(2), &a(20)), 50);
}

#[test]
fn transfer_is_refused_without_changing_anything() {
    let mut l = small();
    let t = Transfer { from: a(1), to: a(2), authority: party(11), asset: a(20), amount: 20 };
    assert_eq!(l.transfer(&Transfer { amount: 51, ..t }), REFUSED);
    assert_eq!(l.transfer(&Transfer { authority: party(12), ..t }), REFUSED);
    assert_eq!(l.transfer(&Transfer { authority: Authority::derived(a(11)), ..t }), REFUSED);
    assert_eq!(l.transfer(&Transfer { from: a(3), ..t }), REFUSED);
    assert_eq!(l.transfer(&Transfer { to: a(3), ..t }), REFUSED);
    assert_eq!(l.transfer(&Transfer { asset: a(21), ..t }), REFUSED);
    assert_eq!(l.balance(&a(1), &a(20)), 50);
    assert_eq!(l.balance(&a(2), &a(20)), 0);
}

#[test]
fn transfer_is_refused_where_the_receiver_has_no_room() {
    let mut l = small();
    l.issue(&a(20), &a(2), &a(30), u64::MAX - 10).unwrap();
    let t = Transfer { from: a(1), to: a(2), authority: party(11), asset: a(20), amount: 11 };
    assert_eq!(l.transfer(&t), REFUSED);
    assert_eq!(l.transfer(&Transfer { amount: 10, ..t }), Ok(()));
    assert_eq!(l.balance(&a(2), &a(20)), u64::MAX);
    assert_eq!(l.balance(&a(1), &a(20)), 40);
}

#[test]
fn transfer_to_the_same_account_changes_nothing() {
    let mut l = small();
    let t = Transfer { from: a(1), to: a(1), authority: party(11), asset: a(20), amount: 50 };
    assert_eq!(l.transfer(&t), Ok(()));
    assert_eq!(l.balance(&a(1), &a(20)), 50);
    assert_eq!(l.transfer(&Transfer { amount: 51, ..t }), REFUSED);
}

#[test]
fn close_needs_the_owner() {
    let mut l = small();
    let c = CloseAccount { account: a(2), destination: a(12), authority: party(12) };
    assert_eq!(l.close_account(&CloseAccount { authority: party(11), ..c }), REFUSED);
    assert_eq!(l.close_account(&CloseAccount { authority: Authority::derived(a(12)), ..c }), REFUSED);
    assert_eq!(l.owner_of(&a(2)), Some(party(12)));
    assert_eq!(l.close_account(&c), Ok(()));
    assert_eq!(l.owner_of(&a(2)), None);
    assert_eq!(l.close_account(&c), REFUSED);
    assert_eq!(l.owner_of(&a(1)), Some(party(11)));
}
