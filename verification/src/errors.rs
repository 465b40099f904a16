use vstd::prelude::*;

verus! {

/// Why a vault operation was refused. Every variant is terminal and
/// caller-visible: nothing is retried inside the library.
#[derive(Clone, Copy, Debug, PartialEq, Eq, Structural)]
pub enum VaultError {
    /// The requested lock is shorter than the 30-day minimum.
    LockTooShort,
    /// The requested lock is longer than the 1095-day maximum.
    LockTooLong,
    /// The deposit amount is zero.
    InvalidAmount,
    /// A vault already occupies the owner's derived address, or no usable
    /// address can be derived for the owner.
    AddressOccupied,
    /// No vault record exists at the caller's derived address.
    VaultNotFound,
    /// The caller is not the owner stored in the record.
    Unauthorized,
    /// The vault was already drained once.
    AlreadyWithdrawn,
    /// The maturity time has not elapsed yet.
    StillLocked,
    /// The underlying asset move failed; surfaced loudly so operators can
    /// reconcile, never masked.
    TransferFailed,
}

} // verus!
