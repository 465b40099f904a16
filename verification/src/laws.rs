use crate::derivation::vault_pda;
use crate::errors::VaultError;
use crate::lifecycle::CreateVault;
use crate::lifecycle::Withdraw;
use crate::lifecycle::create_error;
use crate::lifecycle::create_transition;
use crate::lifecycle::withdraw_action;
use crate::lifecycle::withdraw_error;
use crate::lifecycle::withdraw_post;
use crate::records::MAX_LOCK_DAYS;
use crate::records::MIN_LOCK_DAYS;
use crate::records::SECONDS_PER_DAY;
use crate::registry::StoredVault;
use crate::registry::find_address;
use crate::registry::ledger_wf;
use crate::registry::lemma_find_address_same_addresses;
use crate::tokens::TokenType;
use vstd::prelude::*;

verus! {

/// A vault can never be drained in the instant it was created: after any
/// successful `create_vault`, a `withdraw` by the same owner at the creation
/// time is refused with `StillLocked`.
pub proof fn lemma_immediate_withdraw_still_locked(
    pre: Seq<StoredVault>,
    post: Seq<StoredVault>,
    program_id: Seq<u8>,
    cctx: CreateVault,
    wctx: Withdraw,
    now: i64,
    amount: u64,
    lock_duration_days: u64,
    token_type: TokenType,
)
    requires
        create_error(pre, program_id, cctx, amount, lock_duration_days) is None,
        create_transition(pre, post, program_id, cctx, now, amount, lock_duration_days, token_type),
        wctx.owner == cctx.owner,
    ensures
        withdraw_error(post, program_id, wctx, now) == Some(VaultError::StillLocked),
{
    let p = vault_pda(cctx.owner@, program_id)->0;
    assert(find_address(post, p.0) == Some(post.len() - 1));
    assert(post.last().record.unlock_time >= now + MIN_LOCK_DAYS * SECONDS_PER_DAY);
}

/// A matured vault pays out exactly once: when `withdraw` succeeds, the
/// payout it hands out is the full stored amount, and any further
/// `withdraw` against the resulting registry, at any time and by any
/// caller with the same derived address, is refused with
/// `AlreadyWithdrawn`. Under the host ledger's serialization of
/// concurrent attempts, this is the second of two racing withdrawals.
pub proof fn lemma_withdraw_pays_out_exactly_once(
    vaults: Seq<StoredVault>,
    program_id: Seq<u8>,
    ctx: Withdraw,
    ctx2: Withdraw,
    t1: i64,
    t2: i64,
)
    requires
        withdraw_error(vaults, program_id, ctx, t1) is None,
        ctx2.owner == ctx.owner,
    ensures
        withdraw_action(vaults, program_id, ctx) matches Some(a) && {
            &&& vault_pda(ctx.owner@, program_id) matches Some(p)
            &&& find_address(vaults, p.0) matches Some(i)
            &&& a.amount == vaults[i].record.amount
        },
        withdraw_error(withdraw_post(vaults, program_id, ctx), program_id, ctx2, t2) == Some(
            VaultError::AlreadyWithdrawn,
        ),
{
    let p = vault_pda(ctx.owner@, program_id)->0;
    let i = find_address(vaults, p.0)->0;
    crate::registry::lemma_find_address_spec(vaults, p.0);
    assert(0 <= i < vaults.len());
    // Drain leaves every address in place, so the second lookup resolves
    // the same entry, now flagged as withdrawn.
    let post = withdraw_post(vaults, program_id, ctx);
    assert(post == vaults.update(i, crate::lifecycle::mark_withdrawn(vaults[i])));
    assert forall|k: int| 0 <= k < vaults.len() implies (#[trigger] post[k]).address@ == (
    #[trigger] vaults[k]).address@ by {}
    lemma_find_address_same_addresses(post, vaults, p.0);
    assert(post[i].record.is_withdrawn);
}

/// A withdrawal is owed whenever its preconditions hold: a vault lives at
/// the caller's derived address, its stored owner is the caller, it has
/// not been drained, and maturity has elapsed. `withdraw`'s contract then
/// turns this refusal-free check into the `Ok` outcome.
pub proof fn lemma_matured_withdraw_succeeds(
    vaults: Seq<StoredVault>,
    program_id: Seq<u8>,
    ctx: Withdraw,
    now: i64,
    i: int,
)
    requires
        vault_pda(ctx.owner@, program_id) matches Some(p) && find_address(vaults, p.0) == Some(i),
        0 <= i < vaults.len(),
        vaults[i].record.owner@ == ctx.owner@,
        !vaults[i].record.is_withdrawn,
        now >= vaults[i].record.unlock_time,
    ensures
        withdraw_error(vaults, program_id, ctx, now) is None,
{
}

/// Maturity is exactly the creation time plus the lock duration in seconds:
/// in every well-formed ledger, each record satisfies
/// `unlock_time == created_at + lock_duration_days * 86400`, with the
/// duration inside the accepted bounds.
pub proof fn lemma_unlock_time_formula(s: Seq<StoredVault>, i: int)
    requires
        ledger_wf(s),
        0 <= i < s.len(),
    ensures
        s[i].record.unlock_time == s[i].record.created_at + s[i].record.lock_duration_days
            * SECONDS_PER_DAY,
        MIN_LOCK_DAYS <= s[i].record.lock_duration_days <= MAX_LOCK_DAYS,
        s[i].record.amount > 0,
{
    assert(s[i].wf());
}

/// A zero deposit is always refused with `InvalidAmount`, whatever the
/// registry holds, whenever the requested lock itself is acceptable (a
/// malformed lock is reported first). `create_vault`'s contract adds that
/// no record is created on any error.
pub proof fn lemma_zero_amount_refused(
    vaults: Seq<StoredVault>,
    program_id: Seq<u8>,
    ctx: CreateVault,
    lock_duration_days: u64,
)
    requires
        MIN_LOCK_DAYS <= lock_duration_days <= MAX_LOCK_DAYS,
    ensures
        create_error(vaults, program_id, ctx, 0u64, lock_duration_days) == Some(
            VaultError::InvalidAmount,
        ),
{
}

/// Locks outside the accepted bounds are always refused, whatever the
/// registry, amount or owner: shorter than 30 days with `LockTooShort`,
/// longer than 1095 days with `LockTooLong`.
pub proof fn lemma_lock_bounds_refused(
    vaults: Seq<StoredVault>,
    program_id: Seq<u8>,
    ctx: CreateVault,
    amount: u64,
    lock_duration_days: u64,
)
    ensures
        lock_duration_days < MIN_LOCK_DAYS ==> create_error(
            vaults,
            program_id,
            ctx,
            amount,
            lock_duration_days,
        ) == Some(VaultError::LockTooShort),
        lock_duration_days > MAX_LOCK_DAYS ==> create_error(
            vaults,
            program_id,
            ctx,
            amount,
            lock_duration_days,
        ) == Some(VaultError::LockTooLong),
{
}

/// Only the stored owner ever withdraws: whenever `withdraw` succeeds, the
/// record found at the caller's derived address names the caller as its
/// owner. A caller who is not the stored owner is refused, whatever
/// signature they hold for their own identity.
pub proof fn lemma_withdraw_only_by_owner(
    vaults: Seq<StoredVault>,
    program_id: Seq<u8>,
    ctx: Withdraw,
    now: i64,
)
    requires
        withdraw_error(vaults, program_id, ctx, now) is None,
    ensures
        vault_pda(ctx.owner@, program_id) matches Some(p) && find_address(vaults, p.0) matches Some(
            i,
        ) && vaults[i].record.owner@ == ctx.owner@,
{
}

} // verus!
