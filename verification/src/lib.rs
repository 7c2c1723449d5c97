//! A time-bounded escrow between a maker and the taker the maker nominates.
//!
//! The maker opens an escrow under a seed and deposits units of one asset
//! class into a vault; the taker receives a claim token, may deposit it into
//! the vault before the expiry, and may withdraw the vault once the locking
//! period has run out; the maker may take the vault back at any time. The
//! record, the vault and the authority over the vault sit at addresses
//! derived from the maker and the seed, so that no key controls them.
//!
//! - [`state`] holds the escrow record and its two time checks, [`layout`]
//!   its stored form.
//! - [`address`] derives the custody addresses, [`custody`] collects them
//!   for a call.
//! - [`contexts`] holds the accounts each call names and builds the asset
//!   requests each call makes.
//! - [`ledger`] keeps accounts, balances and records, and carries out the
//!   asset requests; [`table`] is the map it is built on.
//! - [`transitions`] defines create, claim, refund and settle on the ledger;
//!   the four functions of this file derive the addresses and run them.
//! - [`laws`] states what holds of the transitions for every ledger.

use vstd::prelude::*;

pub mod address;
pub mod contexts;
pub mod custody;
pub mod errors;
pub mod laws;
pub mod layout;
pub mod ledger;
pub mod state;
pub mod table;
pub mod transitions;

use crate::contexts::{Make, Refund, Take};
use crate::custody::{Custody, MakeCustody};
use crate::errors::EscrowError;
use crate::ledger::Ledger;
use crate::transitions::follows;

verus! {

/// Creates the escrow that the maker opens under `seed`: derives its
/// addresses, checks the call against them and against the ledger, stores
/// the record with `now` as its time of creation, issues the claim token to
/// the nominated taker and moves `deposit_amount` into the vault. The record
/// it stores carries bumps from which a later call recreates the very
/// addresses named here.
pub fn make(
    ledger: &mut Ledger,
    ctx: &Make,
    seed: u64,
    deposit_amount: u64,
    expiry: u64,
    locking_period: u64,
    now: u64,
) -> (r: Result<(), EscrowError>)
    requires
        old(ledger).wf(),
    ensures
        final(ledger).wf(),
        follows(
            old(ledger)@.create(
                *ctx,
                seed,
                deposit_amount,
                expiry,
                locking_period,
                now,
                MakeCustody::spec_find(ctx.maker, seed, ctx.escrow),
            ),
            old(ledger)@,
            r,
            final(ledger)@,
        ),
        r is Ok ==> final(ledger)@.custody(ctx.escrow, ctx.maker).fits(
            ctx.escrow,
            ctx.auth,
            ctx.vault,
        ),
{
    let custody = MakeCustody::find(&ctx.maker, seed, &ctx.escrow);
    ledger.create(ctx, seed, deposit_amount, expiry, locking_period, now, &custody)
}

/// Cancels an escrow and returns what its vault holds to the maker, at any
/// time.
pub fn refund(ledger: &mut Ledger, ctx: &Refund) -> (r: Result<(), EscrowError>)
    requires
        old(ledger).wf(),
    ensures
        final(ledger).wf(),
        follows(
            old(ledger)@.refund(*ctx, old(ledger)@.custody(ctx.escrow, ctx.maker)),
            old(ledger)@,
            r,
            final(ledger)@,
        ),
{
    let custody = ledger.custody(&ctx.escrow, &ctx.maker);
    ledger.refund(ctx, &custody)
}

/// Lets the taker make the matching deposit, strictly before the expiry.
pub fn claim(ledger: &mut Ledger, ctx: &Take, now: u64) -> (r: Result<(), EscrowError>)
    requires
        old(ledger).wf(),
    ensures
        final(ledger).wf(),
        follows(
            old(ledger)@.claim(*ctx, now, old(ledger)@.custody(ctx.escrow, ctx.maker)),
            old(ledger)@,
            r,
            final(ledger)@,
        ),
{
    let custody = ledger.custody(&ctx.escrow, &ctx.maker);
    ledger.claim(ctx, now, &custody)
}

/// Hands the taker what the vault holds, once the locking period has run
/// out, and ends the escrow.
pub fn take(ledger: &mut Ledger, ctx: &Take, now: u64) -> (r: Result<(), EscrowError>)
    requires
        old(ledger).wf(),
    ensures
        final(ledger).wf(),
        follows(
            old(ledger)@.settle(*ctx, now, old(ledger)@.custody(ctx.escrow, ctx.maker)),
            old(ledger)@,
            r,
            final(ledger)@,
        ),
{
    let custody = ledger.custody(&ctx.escrow, &ctx.maker);
    ledger.settle(ctx, now, &custody)
}

} // verus!
