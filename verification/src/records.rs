use crate::tokens::TokenType;
use vstd::prelude::*;

verus! {

/// Shortest lock a vault accepts, in days.
pub const MIN_LOCK_DAYS: u64 = 30;

/// Longest lock a vault accepts, in days (three years).
pub const MAX_LOCK_DAYS: u64 = 1095;

/// Seconds in one day of lock duration.
pub const SECONDS_PER_DAY: u64 = 86400;

/// The durable record of one locked deposit. Created atomically with the
/// funding transfer; only `is_withdrawn` ever changes afterwards, and it
/// flips false to true exactly once. The record is never deleted: it remains
/// as a permanent, queryable receipt.
#[derive(Clone, Copy, Debug)]
pub struct VaultAccount {
    /// Identity of the depositor; the only party allowed to withdraw.
    pub owner: [u8; 32],
    /// Deposited quantity, fixed at creation; withdrawal is all-or-nothing.
    pub amount: u64,
    /// Asset kind of the deposit.
    pub token_type: TokenType,
    /// Timestamp at creation.
    pub created_at: i64,
    /// Earliest instant a withdrawal is legal:
    /// `created_at + lock_duration_days * 86400`.
    pub unlock_time: i64,
    /// Requested lock length in days, kept for auditability.
    pub lock_duration_days: u64,
    /// Whether the deposit has been paid back out.
    pub is_withdrawn: bool,
    /// Disambiguating value used when the record's storage address was
    /// derived from the owner identity; kept so the address can be
    /// re-derived and verified.
    pub bump: u8,
}

impl VaultAccount {
    /// Field invariants every record satisfies from creation on.
    pub open spec fn wf(self) -> bool {
        &&& self.amount > 0
        &&& MIN_LOCK_DAYS <= self.lock_duration_days
        &&& self.lock_duration_days <= MAX_LOCK_DAYS
        &&& self.unlock_time == self.created_at + self.lock_duration_days * SECONDS_PER_DAY
    }
}

} // verus!
