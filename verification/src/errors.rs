//! The failures a transition can report.

use vstd::prelude::*;

verus! {

/// Why a transition was rejected. A rejected transition changes nothing.
#[derive(Clone, Copy, Debug, PartialEq, Eq, Structural)]
pub enum EscrowError {
    /// A claim came at or after the escrow's expiry.
    Expired,
    /// A settlement came before the locking period had run out.
    NotYetUnlockable,
    /// An account, an address, an identity or a balance does not fit the
    /// escrow the call names.
    ConstraintViolation,
}

} // verus!
