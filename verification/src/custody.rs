//! The derived addresses of an escrow, as a call is checked against them.

use vstd::prelude::*;
use crate::address::{
    custody_address, escrow_address, find_custody, find_escrow, spec_custody_address,
    spec_escrow_address, spec_find_custody, spec_find_escrow, Address, Found, AUTH_TAG, MINT_TAG,
    VAULT_TAG,
};
use crate::contexts::{Make, MakeBumps};
use crate::ledger::{Ledger, LedgerView};
use crate::state::Escrow;
use crate::table::Key;

verus! {

/// The four addresses found for an escrow that is being created, each with
/// its bump; `None` where the derivation found no address.
#[derive(Clone, Copy, Debug, PartialEq, Eq)]
pub struct MakeCustody {
    pub escrow: Option<Found>,
    pub taker_mint: Option<Found>,
    pub auth: Option<Found>,
    pub vault: Option<Found>,
}

/// The three addresses that a stored record's bumps give; `None` where a
/// bump gives no address.
#[derive(Clone, Copy, Debug, PartialEq, Eq)]
pub struct Custody {
    pub escrow: Option<Address>,
    pub auth: Option<Address>,
    pub vault: Option<Address>,
}

fn found_is(f: &Option<Found>, a: &Address) -> (r: bool)
    ensures
        r == (f matches Some(x) && x.address == *a),
{
    match f {
        Some(x) => x.address.same(a),
        None => false,
    }
}

fn address_is(f: &Option<Address>, a: &Address) -> (r: bool)
    ensures
        r == (*f == Some(*a)),
{
    match f {
        Some(x) => x.same(a),
        None => false,
    }
}

impl MakeCustody {
    /// The addresses derived for the escrow that `maker` opens under `seed`
    /// at the record address `escrow`.
    pub open spec fn spec_find(maker: Address, seed: u64, escrow: Address) -> MakeCustody {
        MakeCustody {
            escrow: spec_find_escrow(maker, seed),
            taker_mint: spec_find_custody(MINT_TAG@, escrow),
            auth: spec_find_custody(AUTH_TAG@, escrow),
            vault: spec_find_custody(VAULT_TAG@, escrow),
        }
    }

    /// The bumps that a later call recreates the addresses from do give
    /// these addresses.
    pub open spec fn recreatable(self, maker: Address, seed: u64, escrow: Address) -> bool {
        &&& self.escrow matches Some(x) ==> spec_escrow_address(maker, seed, x.bump) == Some(
            x.address,
        )
        &&& self.auth matches Some(x) ==> spec_custody_address(AUTH_TAG@, escrow, x.bump)
            == Some(x.address)
        &&& self.vault matches Some(x) ==> spec_custody_address(VAULT_TAG@, escrow, x.bump)
            == Some(x.address)
    }

    /// Derives the four addresses.
    pub fn find(maker: &Address, seed: u64, escrow: &Address) -> (c: MakeCustody)
        ensures
            c == MakeCustody::spec_find(*maker, seed, *escrow),
            c.recreatable(*maker, seed, *escrow),
    {
        MakeCustody {
            escrow: find_escrow(maker, seed),
            taker_mint: find_custody(MINT_TAG.as_slice(), escrow),
            auth: find_custody(AUTH_TAG.as_slice(), escrow),
            vault: find_custody(VAULT_TAG.as_slice(), escrow),
        }
    }

    /// Every address was found, and the call names each of them.
    pub open spec fn fits(self, ctx: Make) -> bool {
        &&& self.escrow matches Some(x) && x.address == ctx.escrow
        &&& self.taker_mint matches Some(x) && x.address == ctx.taker_mint
        &&& self.auth matches Some(x) && x.address == ctx.auth
        &&& self.vault matches Some(x) && x.address == ctx.vault
    }

    /// The bumps found.
    pub open spec fn bumps(self) -> MakeBumps {
        MakeBumps {
            taker_mint: self.taker_mint.unwrap().bump,
            auth: self.auth.unwrap().bump,
            vault: self.vault.unwrap().bump,
            escrow: self.escrow.unwrap().bump,
        }
    }

    /// The bumps found, where the call names the four addresses.
    pub fn check(&self, ctx: &Make) -> (b: Option<MakeBumps>)
        ensures
            b == (if self.fits(*ctx) {
                Some(self.bumps())
            } else {
                None
            }),
    {
        if found_is(&self.escrow, &ctx.escrow) && found_is(&self.taker_mint, &ctx.taker_mint)
            && found_is(&self.auth, &ctx.auth) && found_is(&self.vault, &ctx.vault) {
            match (self.escrow, self.taker_mint, self.auth, self.vault) {
                (Some(e), Some(m), Some(a), Some(v)) => Some(
                    MakeBumps { taker_mint: m.bump, auth: a.bump, vault: v.bump, escrow: e.bump },
                ),
                _ => None,
            }
        } else {
            None
        }
    }
}

impl Custody {
    /// The addresses that the bumps of `record` give, for the record
    /// address `escrow` and the maker a call names.
    pub open spec fn spec_of(record: Escrow, maker: Address, escrow: Address) -> Custody {
        Custody {
            escrow: spec_escrow_address(maker, record.seed, record.escrow_bump),
            auth: spec_custody_address(AUTH_TAG@, escrow, record.auth_bump),
            vault: spec_custody_address(VAULT_TAG@, escrow, record.vault_bump),
        }
    }

    /// No address at all.
    pub open spec fn spec_none() -> Custody {
        Custody { escrow: None, auth: None, vault: None }
    }

    /// Recreates the three addresses from the record's bumps.
    pub fn of(record: &Escrow, maker: &Address, escrow: &Address) -> (c: Custody)
        ensures
            c == Custody::spec_of(*record, *maker, *escrow),
    {
        Custody {
            escrow: escrow_address(maker, record.seed, record.escrow_bump),
            auth: custody_address(AUTH_TAG.as_slice(), escrow, record.auth_bump),
            vault: custody_address(VAULT_TAG.as_slice(), escrow, record.vault_bump),
        }
    }

    pub fn none() -> (c: Custody)
        ensures
            c == Custody::spec_none(),
    {
        Custody { escrow: None, auth: None, vault: None }
    }

    /// The call names exactly these three addresses.
    pub open spec fn fits(self, escrow: Address, auth: Address, vault: Address) -> bool {
        &&& self.escrow == Some(escrow)
        &&& self.auth == Some(auth)
        &&& self.vault == Some(vault)
    }

    pub fn check(&self, escrow: &Address, auth: &Address, vault: &Address) -> (r: bool)
        ensures
            r == self.fits(*escrow, *auth, *vault),
    {
        address_is(&self.escrow, escrow) && address_is(&self.auth, auth) && address_is(
            &self.vault,
            vault,
        )
    }
}

impl LedgerView {
    /// The addresses that the bumps of the record at `escrow` give for a
    /// call that names `maker`; none where no record is live there.
    pub open spec fn custody(self, escrow: Address, maker: Address) -> Custody {
        if self.records.contains_key(escrow) {
            Custody::spec_of(self.records[escrow], maker, escrow)
        } else {
            Custody::spec_none()
        }
    }
}

impl Ledger {
    /// Recreates the addresses of the escrow at `escrow` from the bumps of
    /// its record, for a call that names `maker`.
    pub fn custody(&self, escrow: &Address, maker: &Address) -> (c: Custody)
        requires
            self.wf(),
        ensures
            c == self@.custody(*escrow, *maker),
    {
        match self.record(escrow) {
            Some(record) => Custody::of(&record, maker, escrow),
            None => Custody::none(),
        }
    }
}

} // verus!
