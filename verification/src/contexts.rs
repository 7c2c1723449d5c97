//! The accounts that each transition names, and the requests that each
//! transition makes of the asset operations.

use vstd::prelude::*;
use crate::address::Address;
use crate::errors::EscrowError;
use crate::ledger::{Authority, CloseAccount, Ledger, LedgerView, MintOne, Transfer};
use crate::state::Escrow;

verus! {

/// The bumps of the four addresses derived when an escrow is created.
#[derive(Clone, Copy, Debug, PartialEq, Eq)]
pub struct MakeBumps {
    pub taker_mint: u8,
    pub auth: u8,
    pub vault: u8,
    pub escrow: u8,
}

/// The accounts of a creation. `maker` is the caller.
#[derive(Clone, Copy, Debug, PartialEq, Eq)]
pub struct Make {
    pub maker: Address,
    pub maker_mint: Address,
    pub taker_mint: Address,
    pub taker_ata: Address,
    pub taker: Address,
    pub maker_ata: Address,
    pub auth: Address,
    pub vault: Address,
    pub escrow: Address,
}

impl Make {
    /// The record of the escrow being created.
    pub open spec fn spec_init_escrow(
        &self,
        seed: u64,
        expiry: u64,
        locking_period: u64,
        bumps: MakeBumps,
        now: u64,
    ) -> Escrow {
        Escrow {
            maker: self.maker,
            maker_mint: self.maker_mint,
            taker_mint: self.taker_mint,
            taker: self.taker,
            offer_amount: 1,
            seed,
            expiry,
            locking_period,
            auth_bump: bumps.auth,
            vault_bump: bumps.vault,
            escrow_bump: bumps.escrow,
            created_time: now,
        }
    }

    /// The deposit: `amount` units of the maker's asset class, from the
    /// maker's holding account into the vault, on the maker's word.
    pub open spec fn spec_transfer_to_vault(&self, amount: u64) -> Transfer {
        Transfer {
            from: self.maker_ata,
            to: self.vault,
            authority: Authority::spec_party(self.maker),
            asset: self.maker_mint,
            amount,
        }
    }

    /// The claim token: one unit of the taker's asset class, issued into the
    /// taker's new holding account on the authority's word.
    pub open spec fn spec_issue_tokens(&self) -> MintOne {
        MintOne {
            asset: self.taker_mint,
            to: self.taker_ata,
            authority: Authority::spec_derived(self.auth),
        }
    }

    /// Fills in the record of the escrow being created: the parties and
    /// asset classes of this call, an offer of one unit, the timing as
    /// given, the bumps found, and `now` as the time of creation.
    pub fn init_escrow(
        &self,
        seed: u64,
        expiry: u64,
        locking_period: u64,
        bumps: &MakeBumps,
        now: u64,
    ) -> (e: Escrow)
        ensures
            e == self.spec_init_escrow(seed, expiry, locking_period, *bumps, now),
            e.wf(),
    {
        Escrow {
            maker: self.maker,
            maker_mint: self.maker_mint,
            taker_mint: self.taker_mint,
            taker: self.taker,
            offer_amount: 1,
            seed,
            expiry,
            locking_period,
            auth_bump: bumps.auth,
            vault_bump: bumps.vault,
            escrow_bump: bumps.escrow,
            created_time: now,
        }
    }

    /// The request that moves the deposit into the vault.
    pub fn transfer_to_vault(&self, amount: u64) -> (t: Transfer)
        ensures
            t == self.spec_transfer_to_vault(amount),
    {
        Transfer {
            from: self.maker_ata,
            to: self.vault,
            authority: Authority::party(self.maker),
            asset: self.maker_mint,
            amount,
        }
    }

    /// The request that issues the claim token.
    pub fn issue_tokens(&self) -> (m: MintOne)
        ensures
            m == self.spec_issue_tokens(),
    {
        MintOne {
            asset: self.taker_mint,
            to: self.taker_ata,
            authority: Authority::derived(self.auth),
        }
    }
}

/// The accounts of a refund. `maker` is the caller.
#[derive(Clone, Copy, Debug, PartialEq, Eq)]
pub struct Refund {
    pub maker: Address,
    pub maker_ata: Address,
    pub maker_mint: Address,
    pub auth: Address,
    pub vault: Address,
    pub escrow: Address,
}

impl Refund {
    /// `amount` units of `asset`, from the vault back to the maker's holding
    /// account, on the authority's word.
    pub open spec fn spec_empty_vault(&self, asset: Address, amount: u64) -> Transfer {
        Transfer {
            from: self.vault,
            to: self.maker_ata,
            authority: Authority::spec_derived(self.auth),
            asset,
            amount,
        }
    }

    /// The vault closed on the authority's word, its storage deposit going
    /// to the maker.
    pub open spec fn spec_close_vault(&self) -> CloseAccount {
        CloseAccount {
            account: self.vault,
            destination: self.maker,
            authority: Authority::spec_derived(self.auth),
        }
    }

    /// The request that returns what the vault holds of one asset class.
    pub fn empty_vault(&self, asset: &Address, amount: u64) -> (t: Transfer)
        ensures
            t == self.spec_empty_vault(*asset, amount),
    {
        Transfer {
            from: self.vault,
            to: self.maker_ata,
            authority: Authority::derived(self.auth),
            asset: *asset,
            amount,
        }
    }

    /// The request that closes the vault.
    pub fn close_vault(&self) -> (c: CloseAccount)
        ensures
            c == self.spec_close_vault(),
    {
        CloseAccount {
            account: self.vault,
            destination: self.maker,
            authority: Authority::derived(self.auth),
        }
    }
}

/// The accounts of a claim and of a settlement. `taker` is the caller.
#[derive(Clone, Copy, Debug, PartialEq, Eq)]
pub struct Take {
    pub maker: Address,
    pub maker_mint: Address,
    pub maker_receive_ata: Address,
    pub taker: Address,
    pub taker_ata: Address,
    pub taker_receive_ata: Address,
    pub taker_mint: Address,
    pub auth: Address,
    pub vault: Address,
    pub escrow: Address,
}

/// What a time check on the record at `escrow` gives: the check's own
/// answer, or `ConstraintViolation` where no record is live there.
pub open spec fn checked(
    l: LedgerView,
    escrow: Address,
    open: spec_fn(Escrow) -> bool,
    late: EscrowError,
) -> Result<(), EscrowError> {
    if !l.records.contains_key(escrow) {
        Err(EscrowError::ConstraintViolation)
    } else if open(l.records[escrow]) {
        Ok(())
    } else {
        Err(late)
    }
}

impl Take {
    /// The matching deposit: one unit of the taker's asset class, from the
    /// taker's holding account into the vault, on the taker's word.
    pub open spec fn spec_deposit_to_vault(&self) -> Transfer {
        Transfer {
            from: self.taker_ata,
            to: self.vault,
            authority: Authority::spec_party(self.taker),
            asset: self.taker_mint,
            amount: 1,
        }
    }

    /// `amount` units of `asset`, from the vault to the taker's receiving
    /// account, on the authority's word.
    pub open spec fn spec_empty_vault_to_taker(&self, asset: Address, amount: u64) -> Transfer {
        Transfer {
            from: self.vault,
            to: self.taker_receive_ata,
            authority: Authority::spec_derived(self.auth),
            asset,
            amount,
        }
    }

    /// The vault closed on the authority's word, its storage deposit going
    /// to the taker.
    pub open spec fn spec_close_vault(&self) -> CloseAccount {
        CloseAccount {
            account: self.vault,
            destination: self.taker,
            authority: Authority::spec_derived(self.auth),
        }
    }

    /// The expiry check of the record this call names.
    pub fn check_expiry(&self, ledger: &Ledger, now: u64) -> (r: Result<(), EscrowError>)
        requires
            ledger.wf(),
        ensures
            r == checked(
                ledger@,
                self.escrow,
                |e: Escrow| e.claimable_at(now),
                EscrowError::Expired,
            ),
    {
        match ledger.record(&self.escrow) {
            Some(e) => e.check_expiry(now),
            None => Err(EscrowError::ConstraintViolation),
        }
    }

    /// The request that makes the matching deposit.
    pub fn deposit_to_vault(&self) -> (t: Transfer)
        ensures
            t == self.spec_deposit_to_vault(),
    {
        Transfer {
            from: self.taker_ata,
            to: self.vault,
            authority: Authority::party(self.taker),
            asset: self.taker_mint,
            amount: 1,
        }
    }

    /// The locking check of the record this call names.
    pub fn check_locked(&self, ledger: &Ledger, now: u64) -> (r: Result<(), EscrowError>)
        requires
            ledger.wf(),
        ensures
            r == checked(
                ledger@,
                self.escrow,
                |e: Escrow| e.unlockable_at(now),
                EscrowError::NotYetUnlockable,
            ),
    {
        match ledger.record(&self.escrow) {
            Some(e) => e.check_locked(now),
            None => Err(EscrowError::ConstraintViolation),
        }
    }

    /// The request that hands the taker what the vault holds of one asset
    /// class.
    pub fn empty_vault_to_taker(&self, asset: &Address, amount: u64) -> (t: Transfer)
        ensures
            t == self.spec_empty_vault_to_taker(*asset, amount),
    {
        Transfer {
            from: self.vault,
            to: self.taker_receive_ata,
            authority: Authority::derived(self.auth),
            asset: *asset,
            amount,
        }
    }

    /// The request that closes the vault.
    pub fn close_vault(&self) -> (c: CloseAccount)
        ensures
            c == self.spec_close_vault(),
    {
        CloseAccount {
            account: self.vault,
            destination: self.taker,
            authority: Authority::derived(self.auth),
        }
    }
}

} // verus!
