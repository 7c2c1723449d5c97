//! The escrow record and its two time checks.

use vstd::prelude::*;
use crate::address::Address;
use crate::errors::EscrowError;

verus! {

/// Stored size of an address, in bytes.
pub const PUBKEY_L: usize = 32;

/// Stored size of a 64-bit number, in bytes.
pub const U64_L: usize = 8;

/// Stored size of a one-byte field.
pub const U8_L: usize = 1;

/// The persisted description of one escrow: its parties, its two asset
/// classes, its timing and the bumps of its three derived addresses.
#[derive(Clone, Copy, Debug, PartialEq, Eq)]
pub struct Escrow {
    pub maker: Address,
    pub maker_mint: Address,
    pub taker_mint: Address,
    pub taker: Address,
    pub offer_amount: u8,
    pub seed: u64,
    pub expiry: u64,
    pub locking_period: u64,
    pub auth_bump: u8,
    pub vault_bump: u8,
    pub escrow_bump: u8,
    pub created_time: u64,
}

impl Escrow {
    /// Stored size of a record: an eight-byte tag, four addresses, four
    /// 64-bit numbers and four one-byte fields.
    pub const LEN: usize = 8 + 4 * PUBKEY_L + 4 * U64_L + 4 * U8_L;

    /// A record offers exactly one indivisible unit.
    pub open spec fn wf(&self) -> bool {
        self.offer_amount == 1
    }

    /// The window for the taker's deposit is still open at `now`.
    pub open spec fn claimable_at(&self, now: u64) -> bool {
        now < self.expiry
    }

    /// The locking period has run out at `now`.
    pub open spec fn unlockable_at(&self, now: u64) -> bool {
        now >= self.created_time + self.locking_period
    }

    /// Accepts a claim strictly before the expiry, and reports `Expired` from
    /// the expiry on.
    pub fn check_expiry(&self, now: u64) -> (r: Result<(), EscrowError>)
        ensures
            r == (if self.claimable_at(now) {
                Ok::<(), EscrowError>(())
            } else {
                Err(EscrowError::Expired)
            }),
    {
        if self.expiry > now {
            Ok(())
        } else {
            Err(EscrowError::Expired)
        }
    }

    /// Accepts a settlement once `created_time + locking_period` is reached,
    /// and reports `NotYetUnlockable` before. The sum is taken without
    /// bound: a locking period that ends beyond the last clock value never
    /// unlocks.
    pub fn check_locked(&self, now: u64) -> (r: Result<(), EscrowError>)
        ensures
            r == (if self.unlockable_at(now) {
                Ok::<(), EscrowError>(())
            } else {
                Err(EscrowError::NotYetUnlockable)
            }),
    {
        if now >= self.created_time && now - self.created_time >= self.locking_period {
            Ok(())
        } else {
            Err(EscrowError::NotYetUnlockable)
        }
    }
}

} // verus!
