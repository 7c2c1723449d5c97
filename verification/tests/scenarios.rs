use timed_escrow_program::address::{find_custody, find_escrow, Address, AUTH_TAG, MINT_TAG, VAULT_TAG};
use timed_escrow_program::contexts::{Make, Refund, Take};
use timed_escrow_program::errors::EscrowError;
use timed_escrow_program::ledger::{Authority, Ledger};
use timed_escrow_program::{claim, make, refund, take};

const T: u64 = 10_000;

fn addr(n: u8) -> Address {
    Address::new([n; 32])
}

struct World {
    ledger: Ledger,
    make: Make,
    refund: Refund,
    take: Take,
}

/// A ledger on which the maker holds 500 units of the maker's asset class
/// and the taker's asset class is controlled by the escrow's authority.
fn world(seed: u64) -> World {
    let maker = addr(1);
    let taker = addr(2);
    let maker_mint = addr(3);
    let maker_ata = addr(4);
    let taker_ata = addr(5);
    let taker_receive_ata = addr(6);
    let maker_receive_ata = addr(7);
    let issuer = addr(8);
    let escrow = find_escrow(&maker, seed).unwrap().address;
    let auth = find_custody(&AUTH_TAG, &escrow).unwrap().address;
    let vault = find_custody(&VAULT_TAG, &escrow).unwrap().address;
    let taker_mint = find_custody(&MINT_TAG, &escrow).unwrap().address;
    let mut ledger = Ledger::new();
    ledger.register_asset(maker_mint, Authority::party(issuer)).unwrap();
    ledger.register_asset(taker_mint, Authority::derived(auth)).unwrap();
    ledger.open_account(maker_ata, maker).unwrap();
    ledger.open_account(taker_receive_ata, taker).unwrap();
    ledger.issue(&maker_mint, &maker_ata, &issuer, 500).unwrap();
    World {
        ledger,
        make: Make { maker, maker_mint, taker_mint, taker_ata, taker, maker_ata, auth, vault, escrow },
        refund: Refund { maker, maker_ata, maker_mint, auth, vault, escrow },
        take: Take {
            maker,
            maker_mint,
            maker_receive_ata,
            taker,
            taker_ata,
            taker_receive_ata,
            taker_mint,
            auth,
            vault,
            escrow,
        },
    }
}

#[test]
fn create_claim_settle_then_retry_fails() {
    let mut w = world(1);
    let (vault, maker_mint, taker_mint) = (w.make.vault, w.make.maker_mint, w.make.taker_mint);

    assert_eq!(make(&mut w.ledger, &w.make, 1, 100, T + 1000, 500, T), Ok(()));
    assert_eq!(w.ledger.balance(&vault, &maker_mint), 100);
    assert_eq!(w.ledger.balance(&vault, &taker_mint), 0);
    assert_eq!(w.ledger.balance(&w.make.taker_ata, &taker_mint), 1);
    assert_eq!(w.ledger.balance(&w.make.maker_ata, &maker_mint), 400);

    assert_eq!(claim(&mut w.ledger, &w.take, T + 200), Ok(()));
    assert_eq!(w.ledger.balance(&vault, &maker_mint), 100);
    assert_eq!(w.ledger.balance(&vault, &taker_mint), 1);
    assert_eq!(w.ledger.balance(&w.take.taker_ata, &taker_mint), 0);
    assert!(w.ledger.record(&w.take.escrow).is_some());

    assert_eq!(take(&mut w.ledger, &w.take, T + 600), Ok(()));
    assert_eq!(w.ledger.balance(&w.take.taker_receive_ata, &maker_mint), 100);
    assert_eq!(w.ledger.balance(&w.take.taker_receive_ata, &taker_mint), 1);
    assert_eq!(w.ledger.balance(&vault, &maker_mint), 0);
    assert_eq!(w.ledger.balance(&vault, &taker_mint), 0);
    assert_eq!(w.ledger.owner_of(&vault), None);
    assert_eq!(w.ledger.record(&w.take.escrow), None);

    assert_eq!(take(&mut w.ledger, &w.take, T + 700), Err(EscrowError::ConstraintViolation));
}

#[test]
fn create_refund_then_claim_fails() {
    let mut w = world(1);
    let (vault, maker_mint) = (w.make.vault, w.make.maker_mint);

    assert_eq!(make(&mut w.ledger, &w.make, 1, 100, T + 1000, 500, T), Ok(()));
    assert_eq!(w.ledger.balance(&vault, &maker_mint), 100);

    assert_eq!(refund(&mut w.ledger, &w.refund), Ok(()));
    assert_eq!(w.ledger.balance(&vault, &maker_mint), 0);
    assert_eq!(w.ledger.balance(&w.refund.maker_ata, &maker_mint), 500);
    assert_eq!(w.ledger.owner_of(&vault), None);
    assert_eq!(w.ledger.record(&w.refund.escrow), None);

    assert_eq!(claim(&mut w.ledger, &w.take, T + 60), Err(EscrowError::ConstraintViolation));
}
