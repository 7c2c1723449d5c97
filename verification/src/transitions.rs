//! The four transitions of an escrow on the ledger: create, claim, refund
//! and settle. Each is checked in full before it changes anything, so each
//! either applies all of its effects or none.

use vstd::prelude::*;
use crate::address::Address;
use crate::contexts::{Make, Refund, Take};
use crate::custody::{Custody, MakeCustody};
use crate::errors::EscrowError;
use crate::ledger::{Authority, CloseAccount, Ledger, LedgerView, Transfer};
use crate::state::Escrow;
use crate::table::Key;

verus! {

/// A transition's result against what it was meant to do: on success the
/// ledger is the expected one, and on failure the error is the expected one
/// and the ledger is as it was.
pub open spec fn follows(
    expected: Result<LedgerView, EscrowError>,
    before: LedgerView,
    r: Result<(), EscrowError>,
    after: LedgerView,
) -> bool {
    match expected {
        Ok(post) => r == Ok::<(), EscrowError>(()) && after == post,
        Err(e) => r == Err::<(), EscrowError>(e) && after == before,
    }
}

impl LedgerView {
    /// A creation names its accounts rightly: the four derived addresses
    /// are the ones named; both asset classes are known; the maker owns the
    /// holding account the deposit comes from; the taker's new account, the
    /// vault and the record do not exist yet, the first two at different
    /// addresses; and nothing of either asset class lies at the vault's
    /// address.
    pub open spec fn create_accounts_ok(self, ctx: Make, custody: MakeCustody) -> bool {
        &&& custody.fits(ctx)
        &&& self.assets.contains_key(ctx.maker_mint)
        &&& self.assets.contains_key(ctx.taker_mint)
        &&& self.owned_by(ctx.maker_ata, Authority::spec_party(ctx.maker))
        &&& !self.accounts.contains_key(ctx.taker_ata)
        &&& !self.accounts.contains_key(ctx.vault)
        &&& ctx.taker_ata != ctx.vault
        &&& !self.records.contains_key(ctx.escrow)
        &&& self.balance(ctx.vault, ctx.maker_mint) == 0
        &&& self.balance(ctx.vault, ctx.taker_mint) == 0
    }

    /// What a creation does: it opens the taker's account and the vault,
    /// stores the record, issues the claim token and moves the deposit into
    /// the vault.
    pub open spec fn create(
        self,
        ctx: Make,
        seed: u64,
        deposit_amount: u64,
        expiry: u64,
        locking_period: u64,
        now: u64,
        custody: MakeCustody,
    ) -> Result<LedgerView, EscrowError> {
        if !self.create_accounts_ok(ctx, custody) {
            Err(EscrowError::ConstraintViolation)
        } else {
            let record = ctx.spec_init_escrow(seed, expiry, locking_period, custody.bumps(), now);
            let opened = self.open(ctx.taker_ata, Authority::spec_party(ctx.taker)).open(
                ctx.vault,
                Authority::spec_derived(ctx.auth),
            ).put_record(ctx.escrow, record);
            if !opened.can_mint_one(ctx.spec_issue_tokens()) {
                Err(EscrowError::ConstraintViolation)
            } else {
                let issued = opened.mint_one(ctx.spec_issue_tokens());
                if !issued.can_transfer(ctx.spec_transfer_to_vault(deposit_amount)) {
                    Err(EscrowError::ConstraintViolation)
                } else {
                    Ok(issued.transfer(ctx.spec_transfer_to_vault(deposit_amount)))
                }
            }
        }
    }

    /// A call names a live escrow rightly: a record is live at the address,
    /// the three derived addresses are the ones named, the derived authority
    /// owns the vault, and `peer` is an open account other than the vault
    /// that the party `party` owns.
    pub open spec fn escrow_ok(
        self,
        escrow: Address,
        auth: Address,
        vault: Address,
        custody: Custody,
        peer: Address,
        party: Address,
    ) -> bool {
        &&& self.records.contains_key(escrow)
        &&& custody.fits(escrow, auth, vault)
        &&& self.owned_by(vault, Authority::spec_derived(auth))
        &&& self.owned_by(peer, Authority::spec_party(party))
        &&& peer != vault
    }

    /// What emptying a vault does: all it holds of the first asset class
    /// goes to `to`, then all it holds of the second.
    pub open spec fn drain(
        self,
        vault: Address,
        to: Address,
        auth: Authority,
        first: Address,
        second: Address,
    ) -> Result<LedgerView, EscrowError> {
        let one = Transfer {
            from: vault,
            to,
            authority: auth,
            asset: first,
            amount: self.balance(vault, first),
        };
        if !self.can_transfer(one) {
            Err(EscrowError::ConstraintViolation)
        } else {
            let mid = self.transfer(one);
            let two = Transfer {
                from: vault,
                to,
                authority: auth,
                asset: second,
                amount: mid.balance(vault, second),
            };
            if !mid.can_transfer(two) {
                Err(EscrowError::ConstraintViolation)
            } else {
                Ok(mid.transfer(two))
            }
        }
    }

    /// What ends an escrow: the vault is emptied into `to`, the vault is
    /// closed and the record is destroyed.
    pub open spec fn wind_up(
        self,
        escrow: Address,
        to: Address,
        close: CloseAccount,
    ) -> Result<LedgerView, EscrowError> {
        let record = self.records[escrow];
        match self.drain(close.account, to, close.authority, record.maker_mint, record.taker_mint) {
            Err(e) => Err(e),
            Ok(drained) => Ok(drained.close(close).drop_record(escrow)),
        }
    }

    /// A refund names its accounts rightly: the escrow is named rightly,
    /// the caller is the record's maker with the record's asset class, and
    /// owns the holding account the vault is emptied into.
    pub open spec fn refund_accounts_ok(self, ctx: Refund, custody: Custody) -> bool {
        &&& self.escrow_ok(ctx.escrow, ctx.auth, ctx.vault, custody, ctx.maker_ata, ctx.maker)
        &&& self.records[ctx.escrow].maker == ctx.maker
        &&& self.records[ctx.escrow].maker_mint == ctx.maker_mint
    }

    /// What a refund does, at any time.
    pub open spec fn refund(self, ctx: Refund, custody: Custody) -> Result<
        LedgerView,
        EscrowError,
    > {
        if !self.refund_accounts_ok(ctx, custody) {
            Err(EscrowError::ConstraintViolation)
        } else {
            self.wind_up(ctx.escrow, ctx.maker_ata, ctx.spec_close_vault())
        }
    }

    /// The record at the named address is the escrow of the maker and the
    /// two asset classes that the call names, and the caller is the taker
    /// that the maker nominated.
    pub open spec fn take_names_record(self, ctx: Take) -> bool {
        &&& self.records[ctx.escrow].maker == ctx.maker
        &&& self.records[ctx.escrow].maker_mint == ctx.maker_mint
        &&& self.records[ctx.escrow].taker_mint == ctx.taker_mint
        &&& self.records[ctx.escrow].taker == ctx.taker
    }

    /// A claim names its accounts rightly: the escrow is named rightly, the
    /// caller is the nominated taker and owns the holding account the
    /// deposit comes from.
    pub open spec fn claim_accounts_ok(self, ctx: Take, custody: Custody) -> bool {
        &&& self.escrow_ok(ctx.escrow, ctx.auth, ctx.vault, custody, ctx.taker_ata, ctx.taker)
        &&& self.take_names_record(ctx)
    }

    /// What a claim does: strictly before the expiry it moves one unit of
    /// the taker's asset class into the vault, and leaves the record alone.
    pub open spec fn claim(self, ctx: Take, now: u64, custody: Custody) -> Result<
        LedgerView,
        EscrowError,
    > {
        if !self.claim_accounts_ok(ctx, custody) {
            Err(EscrowError::ConstraintViolation)
        } else if !self.records[ctx.escrow].claimable_at(now) {
            Err(EscrowError::Expired)
        } else if !self.can_transfer(ctx.spec_deposit_to_vault()) {
            Err(EscrowError::ConstraintViolation)
        } else {
            Ok(self.transfer(ctx.spec_deposit_to_vault()))
        }
    }

    /// A settlement names its accounts rightly: the escrow is named
    /// rightly, the caller is the nominated taker and owns the account the
    /// vault is emptied into, and the maker's receiving account, where it is
    /// open, is the maker's.
    pub open spec fn settle_accounts_ok(self, ctx: Take, custody: Custody) -> bool {
        &&& self.escrow_ok(
            ctx.escrow,
            ctx.auth,
            ctx.vault,
            custody,
            ctx.taker_receive_ata,
            ctx.taker,
        )
        &&& self.take_names_record(ctx)
        &&& self.accounts.contains_key(ctx.maker_receive_ata) ==> self.owned_by(
            ctx.maker_receive_ata,
            Authority::spec_party(ctx.maker),
        )
    }

    /// What a settlement does, once the locking period has run out.
    pub open spec fn settle(self, ctx: Take, now: u64, custody: Custody) -> Result<
        LedgerView,
        EscrowError,
    > {
        if !self.settle_accounts_ok(ctx, custody) {
            Err(EscrowError::ConstraintViolation)
        } else if !self.records[ctx.escrow].unlockable_at(now) {
            Err(EscrowError::NotYetUnlockable)
        } else {
            self.wind_up(ctx.escrow, ctx.taker_receive_ata, ctx.spec_close_vault())
        }
    }
}

impl Ledger {
    fn names_escrow(
        &self,
        escrow: &Address,
        auth: &Address,
        vault: &Address,
        custody: &Custody,
        peer: &Address,
        party: &Address,
    ) -> (r: Option<Escrow>)
        requires
            self.wf(),
        ensures
            r == (if self@.escrow_ok(*escrow, *auth, *vault, *custody, *peer, *party) {
                Some(self@.records[*escrow])
            } else {
                None
            }),
    {
        match self.record(escrow) {
            Some(record) => {
                if custody.check(escrow, auth, vault) && self.is_owned_by(
                    vault,
                    &Authority::derived(*auth),
                ) && self.is_owned_by(peer, &Authority::party(*party)) && !peer.same(vault) {
                    Some(record)
                } else {
                    None
                }
            },
            None => None,
        }
    }

    /// Empties the vault into `to` and closes it, then destroys the record.
    fn wind_up(
        &mut self,
        escrow: &Address,
        record: &Escrow,
        to: &Address,
        close: &CloseAccount,
    ) -> (r: Result<(), EscrowError>)
        requires
            old(self).wf(),
            old(self)@.records.contains_key(*escrow),
            old(self)@.records[*escrow] == *record,
            old(self)@.owned_by(close.account, close.authority),
            old(self)@.accounts.contains_key(*to),
            *to != close.account,
        ensures
            final(self).wf(),
            follows(old(self)@.wind_up(*escrow, *to, *close), old(self)@, r, final(self)@),
    {
        let vault = close.account;
        let auth = close.authority;
        let first = self.balance(&vault, &record.maker_mint);
        let second = if record.maker_mint.same(&record.taker_mint) {
            0
        } else {
            self.balance(&vault, &record.taker_mint)
        };
        if first > u64::MAX - self.balance(to, &record.maker_mint) {
            return Err(EscrowError::ConstraintViolation);
        }
        if !record.maker_mint.same(&record.taker_mint) && second > u64::MAX - self.balance(
            to,
            &record.taker_mint,
        ) {
            return Err(EscrowError::ConstraintViolation);
        }
        let one = Transfer {
            from: vault,
            to: *to,
            authority: auth,
            asset: record.maker_mint,
            amount: first,
        };
        let two = Transfer { asset: record.taker_mint, amount: second, ..one };
        match self.transfer_for(&one) {
            Ok(()) => {},
            Err(e) => {
                return Err(e);
            },
        }
        match self.transfer_for(&two) {
            Ok(()) => {},
            Err(e) => {
                return Err(e);
            },
        }
        match self.close_for(close) {
            Ok(()) => {},
            Err(e) => {
                return Err(e);
            },
        }
        self.drop_record(escrow);
        Ok(())
    }

    /// Creates an escrow, against the addresses derived for it.
    pub fn create(
        &mut self,
        ctx: &Make,
        seed: u64,
        deposit_amount: u64,
        expiry: u64,
        locking_period: u64,
        now: u64,
        custody: &MakeCustody,
    ) -> (r: Result<(), EscrowError>)
        requires
            old(self).wf(),
        ensures
            final(self).wf(),
            follows(
                old(self)@.create(
                    *ctx,
                    seed,
                    deposit_amount,
                    expiry,
                    locking_period,
                    now,
                    *custody,
                ),
                old(self)@,
                r,
                final(self)@,
            ),
    {
        let bumps = match custody.check(ctx) {
            Some(b) => b,
            None => {
                return Err(EscrowError::ConstraintViolation);
            },
        };
        if self.controller_of(&ctx.maker_mint).is_none() || !self.is_owned_by(
            &ctx.maker_ata,
            &Authority::party(ctx.maker),
        ) || self.owner_of(&ctx.taker_ata).is_some() || self.owner_of(&ctx.vault).is_some()
            || ctx.taker_ata.same(&ctx.vault) || self.record(&ctx.escrow).is_some() {
            return Err(EscrowError::ConstraintViolation);
        }
        if self.controller_of(&ctx.taker_mint).is_none() {
            return Err(EscrowError::ConstraintViolation);
        }
        if self.balance(&ctx.vault, &ctx.maker_mint) != 0 || self.balance(
            &ctx.vault,
            &ctx.taker_mint,
        ) != 0 {
            return Err(EscrowError::ConstraintViolation);
        }
        if !self.is_issued_by(&ctx.taker_mint, &Authority::derived(ctx.auth)) || self.balance(
            &ctx.taker_ata,
            &ctx.taker_mint,
        ) == u64::MAX || self.balance(&ctx.maker_ata, &ctx.maker_mint) < deposit_amount {
            return Err(EscrowError::ConstraintViolation);
        }
        let record = ctx.init_escrow(seed, expiry, locking_period, &bumps, now);
        let mint = ctx.issue_tokens();
        let deposit = ctx.transfer_to_vault(deposit_amount);
        match self.open_for(ctx.taker_ata, Authority::party(ctx.taker)) {
            Ok(()) => {},
            Err(e) => {
                return Err(e);
            },
        }
        match self.open_for(ctx.vault, Authority::derived(ctx.auth)) {
            Ok(()) => {},
            Err(e) => {
                return Err(e);
            },
        }
        self.put_record(ctx.escrow, record);
        match self.issue_for(&mint.asset, &mint.to, &mint.authority, 1) {
            Ok(()) => {},
            Err(e) => {
                return Err(e);
            },
        }
        self.transfer_for(&deposit)
    }

    /// Refunds an escrow to its maker, against the addresses that the
    /// record's bumps give.
    pub fn refund(&mut self, ctx: &Refund, custody: &Custody) -> (r: Result<(), EscrowError>)
        requires
            old(self).wf(),
        ensures
            final(self).wf(),
            follows(old(self)@.refund(*ctx, *custody), old(self)@, r, final(self)@),
    {
        let record = match self.names_escrow(
            &ctx.escrow,
            &ctx.auth,
            &ctx.vault,
            custody,
            &ctx.maker_ata,
            &ctx.maker,
        ) {
            Some(e) => e,
            None => {
                return Err(EscrowError::ConstraintViolation);
            },
        };
        if !record.maker.same(&ctx.maker) || !record.maker_mint.same(&ctx.maker_mint) {
            return Err(EscrowError::ConstraintViolation);
        }
        let close = ctx.close_vault();
        self.wind_up(&ctx.escrow, &record, &ctx.maker_ata, &close)
    }

    fn names_record(record: &Escrow, ctx: &Take) -> (r: bool)
        ensures
            r == (record.maker == ctx.maker && record.maker_mint == ctx.maker_mint
                && record.taker_mint == ctx.taker_mint && record.taker == ctx.taker),
    {
        record.maker.same(&ctx.maker) && record.maker_mint.same(&ctx.maker_mint)
            && record.taker_mint.same(&ctx.taker_mint) && record.taker.same(&ctx.taker)
    }

    /// Takes the taker's matching deposit, against the addresses that the
    /// record's bumps give.
    pub fn claim(&mut self, ctx: &Take, now: u64, custody: &Custody) -> (r: Result<(), EscrowError>)
        requires
            old(self).wf(),
        ensures
            final(self).wf(),
            follows(old(self)@.claim(*ctx, now, *custody), old(self)@, r, final(self)@),
    {
        let record = match self.names_escrow(
            &ctx.escrow,
            &ctx.auth,
            &ctx.vault,
            custody,
            &ctx.taker_ata,
            &ctx.taker,
        ) {
            Some(e) => e,
            None => {
                return Err(EscrowError::ConstraintViolation);
            },
        };
        if !Self::names_record(&record, ctx) {
            return Err(EscrowError::ConstraintViolation);
        }
        match ctx.check_expiry(self, now) {
            Ok(()) => {},
            Err(e) => {
                return Err(e);
            },
        }
        let deposit = ctx.deposit_to_vault();
        self.transfer_for(&deposit)
    }

    /// Settles an escrow to the taker, against the addresses that the
    /// record's bumps give.
    pub fn settle(&mut self, ctx: &Take, now: u64, custody: &Custody) -> (r: Result<(), EscrowError>)
        requires
            old(self).wf(),
        ensures
            final(self).wf(),
            follows(old(self)@.settle(*ctx, now, *custody), old(self)@, r, final(self)@),
    {
        let record = match self.names_escrow(
            &ctx.escrow,
            &ctx.auth,
            &ctx.vault,
            custody,
            &ctx.taker_receive_ata,
            &ctx.taker,
        ) {
            Some(e) => e,
            None => {
                return Err(EscrowError::ConstraintViolation);
            },
        };
        if !Self::names_record(&record, ctx) {
            return Err(EscrowError::ConstraintViolation);
        }
        match self.owner_of(&ctx.maker_receive_ata) {
            Some(o) => {
                if !o.same(&Authority::party(ctx.maker)) {
                    return Err(EscrowError::ConstraintViolation);
                }
            },
            None => {},
        }
        match ctx.check_locked(self, now) {
            Ok(()) => {},
            Err(e) => {
                return Err(e);
            },
        }
        let close = ctx.close_vault();
        self.wind_up(&ctx.escrow, &record, &ctx.taker_receive_ata, &close)
    }
}

} // verus!
