use crate::derivation::vault_pda;
use crate::derivation::derive_vault_address;
use crate::errors::VaultError;
use crate::records::MAX_LOCK_DAYS;
use crate::records::MIN_LOCK_DAYS;
use crate::records::SECONDS_PER_DAY;
use crate::records::VaultAccount;
use crate::registry::StoredVault;
use crate::registry::VaultRegistry;
use crate::registry::find_address;
use crate::registry::find_owner;
use crate::registry::lemma_find_address_spec;
use crate::registry::lemma_find_owner_spec;
use crate::tokens::TokenType;
use vstd::prelude::*;

verus! {

/// Account handles a `create_vault` request carries: the caller's identity
/// and the two custody-side balance accounts the funding transfer moves
/// between.
#[derive(Clone, Copy, Debug)]
pub struct CreateVault {
    /// The authenticated depositor; the request must be authorized by this
    /// identity.
    pub owner: [u8; 32],
    /// The vault's custody account the deposit lands in.
    pub vault_token_account: [u8; 32],
    /// The caller's funding account the deposit leaves from.
    pub user_token_account: [u8; 32],
}

/// Account handles a `withdraw` request carries.
#[derive(Clone, Copy, Debug)]
pub struct Withdraw {
    /// The authenticated caller claiming to be the depositor.
    pub owner: [u8; 32],
    /// The vault's custody account the funds leave from.
    pub vault_token_account: [u8; 32],
    /// The caller's destination account the funds return to.
    pub user_token_account: [u8; 32],
}

/// How a transfer handed to the Asset Transfer Service is authorized.
#[derive(Clone, Copy, Debug)]
pub enum Authority {
    /// The caller moves their own funds under their own signature.
    OwnerSignature { owner: [u8; 32] },
    /// The handler asserts authority on the vault's behalf, proven by
    /// re-deriving the vault's address from `(tag, owner, bump)`; the
    /// custody account is controlled by no signing key. The capability is
    /// minted for this one call and never persisted.
    VaultDerivation { owner: [u8; 32], bump: u8 },
}

/// One instruction for the external Asset Transfer Service: move `amount`
/// of `token` from `from` to `to`. The caller of the handler must perform
/// it atomically with the registry change the handler made.
#[derive(Clone, Copy, Debug)]
pub struct TransferAction {
    /// Asset kind to move.
    pub token: TokenType,
    /// Source account.
    pub from: [u8; 32],
    /// Destination account.
    pub to: [u8; 32],
    /// Quantity to move.
    pub amount: u64,
    /// Authorization for the move.
    pub authority: Authority,
}

/// The parameter check of `create_vault`, first failure wins: the lock must
/// be between 30 and 1095 days inclusive, and the amount positive.
pub open spec fn param_error(amount: u64, lock_duration_days: u64) -> Option<VaultError> {
    if lock_duration_days < MIN_LOCK_DAYS {
        Some(VaultError::LockTooShort)
    } else if lock_duration_days > MAX_LOCK_DAYS {
        Some(VaultError::LockTooLong)
    } else if amount == 0 {
        Some(VaultError::InvalidAmount)
    } else {
        None
    }
}

/// The record-level check of `withdraw`, first failure wins: the stored
/// owner must be the caller, the vault must not have been drained yet, and
/// maturity must have elapsed.
pub open spec fn record_error(record: VaultAccount, caller: Seq<u8>, now: i64) -> Option<
    VaultError,
> {
    if record.owner@ != caller {
        Some(VaultError::Unauthorized)
    } else if record.is_withdrawn {
        Some(VaultError::AlreadyWithdrawn)
    } else if now < record.unlock_time {
        Some(VaultError::StillLocked)
    } else {
        None
    }
}

/// The full precondition check of `create_vault`, first failure wins: the
/// parameter checks of `param_error`, then the owner's derived address must
/// be vacant (a missing derivation also counts as an unavailable address).
pub open spec fn create_error(
    vaults: Seq<StoredVault>,
    program_id: Seq<u8>,
    ctx: CreateVault,
    amount: u64,
    lock_duration_days: u64,
) -> Option<VaultError> {
    if param_error(amount, lock_duration_days) is Some {
        param_error(amount, lock_duration_days)
    } else {
        match vault_pda(ctx.owner@, program_id) {
            None => Some(VaultError::AddressOccupied),
            Some(p) => if find_address(vaults, p.0) is Some || find_owner(vaults, ctx.owner@)
                is Some {
                Some(VaultError::AddressOccupied)
            } else {
                None
            },
        }
    }
}

/// The funding transfer a successful `create_vault` hands out: the full
/// deposit moves from the caller's funding account into vault custody,
/// under the caller's own signature.
pub open spec fn create_action(ctx: CreateVault, amount: u64, token_type: TokenType) -> TransferAction {
    TransferAction {
        token: token_type,
        from: ctx.user_token_account,
        to: ctx.vault_token_account,
        amount,
        authority: Authority::OwnerSignature { owner: ctx.owner },
    }
}

/// How a successful `create_vault` relates the registry after the call to
/// the registry before it: exactly one vault is appended, stored at the
/// owner's derived address, with every field set from the request and
/// `unlock_time = created_at + lock_duration_days * 86400` exactly.
pub open spec fn create_transition(
    pre: Seq<StoredVault>,
    post: Seq<StoredVault>,
    program_id: Seq<u8>,
    ctx: CreateVault,
    now: i64,
    amount: u64,
    lock_duration_days: u64,
    token_type: TokenType,
) -> bool {
    &&& post.len() == pre.len() + 1
    &&& post.drop_last() == pre
    &&& vault_pda(ctx.owner@, program_id) matches Some(p)
    &&& post.last().address@ == p.0
    &&& post.last().record.owner == ctx.owner
    &&& post.last().record.amount == amount
    &&& post.last().record.token_type == token_type
    &&& post.last().record.created_at == now
    &&& post.last().record.unlock_time == now + lock_duration_days * SECONDS_PER_DAY
    &&& post.last().record.lock_duration_days == lock_duration_days
    &&& post.last().record.is_withdrawn == false
    &&& post.last().record.bump == p.1
    &&& post.last().custody == amount
}

/// The precondition check of `withdraw`, first failure wins: a record must
/// exist at the caller's derived address, its stored owner must be the
/// caller, it must not have been drained already, and maturity must have
/// elapsed.
pub open spec fn withdraw_error(
    vaults: Seq<StoredVault>,
    program_id: Seq<u8>,
    ctx: Withdraw,
    now: i64,
) -> Option<VaultError> {
    match vault_pda(ctx.owner@, program_id) {
        None => Some(VaultError::VaultNotFound),
        Some(p) => match find_address(vaults, p.0) {
            None => Some(VaultError::VaultNotFound),
            Some(i) => record_error(vaults[i].record, ctx.owner@, now),
        },
    }
}

/// A drained vault: the flag is set exactly once and custody drops to zero;
/// every other field is untouched.
pub open spec fn mark_withdrawn(sv: StoredVault) -> StoredVault {
    StoredVault {
        custody: 0u64,
        record: VaultAccount { is_withdrawn: true, ..sv.record },
        ..sv
    }
}

/// The registry after a successful `withdraw`: the one record at the
/// caller's derived address is marked drained; nothing else changes.
pub open spec fn withdraw_post(
    vaults: Seq<StoredVault>,
    program_id: Seq<u8>,
    ctx: Withdraw,
) -> Seq<StoredVault> {
    match vault_pda(ctx.owner@, program_id) {
        None => vaults,
        Some(p) => match find_address(vaults, p.0) {
            None => vaults,
            Some(i) => vaults.update(i, mark_withdrawn(vaults[i])),
        },
    }
}

/// The payout a successful `withdraw` hands out: the full stored amount
/// moves from vault custody back to the caller, authorized on the vault's
/// behalf via its derivation, not by any signature.
pub open spec fn withdraw_action(
    vaults: Seq<StoredVault>,
    program_id: Seq<u8>,
    ctx: Withdraw,
) -> Option<TransferAction> {
    match vault_pda(ctx.owner@, program_id) {
        None => None,
        Some(p) => match find_address(vaults, p.0) {
            None => None,
            Some(i) => Some(
                TransferAction {
                    token: vaults[i].record.token_type,
                    from: ctx.vault_token_account,
                    to: ctx.user_token_account,
                    amount: vaults[i].record.amount,
                    authority: Authority::VaultDerivation {
                        owner: ctx.owner,
                        bump: vaults[i].record.bump,
                    },
                },
            ),
        },
    }
}

/// Validate the parameters of a create request: the lock must be between
/// 30 and 1095 days inclusive and the amount positive, first failure wins.
pub fn validate_create(amount: u64, lock_duration_days: u64) -> (r: Result<(), VaultError>)
    ensures
        r is Ok <==> param_error(amount, lock_duration_days) is None,
        r matches Err(e) ==> Some(e) == param_error(amount, lock_duration_days),
{
    if lock_duration_days < MIN_LOCK_DAYS {
        Err(VaultError::LockTooShort)
    } else if lock_duration_days > MAX_LOCK_DAYS {
        Err(VaultError::LockTooLong)
    } else if amount == 0 {
        Err(VaultError::InvalidAmount)
    } else {
        Ok(())
    }
}

/// Populate a fresh record from an accepted request: created now, maturing
/// exactly `lock_duration_days * 86400` seconds later, not yet withdrawn.
pub fn build_record(
    owner: [u8; 32],
    amount: u64,
    lock_duration_days: u64,
    token_type: TokenType,
    now: i64,
    bump: u8,
) -> (r: VaultAccount)
    requires
        param_error(amount, lock_duration_days) is None,
        now + MAX_LOCK_DAYS * SECONDS_PER_DAY <= i64::MAX,
    ensures
        r.wf(),
        r == (VaultAccount {
            owner,
            amount,
            token_type,
            created_at: now,
            unlock_time: (now + lock_duration_days * SECONDS_PER_DAY) as i64,
            lock_duration_days,
            is_withdrawn: false,
            bump,
        }),
        r.unlock_time == now + lock_duration_days * SECONDS_PER_DAY,
{
    let unlock_time = now + (lock_duration_days as i64) * (SECONDS_PER_DAY as i64);
    VaultAccount {
        owner,
        amount,
        token_type,
        created_at: now,
        unlock_time,
        lock_duration_days,
        is_withdrawn: false,
        bump,
    }
}

/// Authorize a withdrawal against one record: only the stored owner, only
/// before any earlier drain, only at or after maturity. On success the
/// full stored amount is owed to the caller.
pub fn authorize_withdraw(record: &VaultAccount, caller: &[u8; 32], now: i64) -> (r: Result<
    u64,
    VaultError,
>)
    ensures
        r is Ok <==> record_error(*record, caller@, now) is None,
        r matches Ok(amount) ==> amount == record.amount,
        r matches Err(e) ==> Some(e) == record_error(*record, caller@, now),
{
    if !crate::registry::bytes32_eq(&record.owner, caller) {
        Err(VaultError::Unauthorized)
    } else if record.is_withdrawn {
        Err(VaultError::AlreadyWithdrawn)
    } else if now < record.unlock_time {
        Err(VaultError::StillLocked)
    } else {
        Ok(record.amount)
    }
}

/// Create a new vault: validate the request, allocate the record at the
/// owner's derived address, and hand back the funding transfer for the
/// Asset Transfer Service. The registry change and the transfer are one
/// atomic unit: a caller that cannot perform the transfer must abandon the
/// changed registry as a whole.
///
/// On any error the registry is unchanged and no record is created.
pub fn create_vault(
    reg: &mut VaultRegistry,
    ctx: &CreateVault,
    now: i64,
    amount: u64,
    lock_duration_days: u64,
    token_type: TokenType,
) -> (r: Result<TransferAction, VaultError>)
    requires
        old(reg).wf(),
        now + MAX_LOCK_DAYS * SECONDS_PER_DAY <= i64::MAX,
    ensures
        final(reg).wf(),
        final(reg).program_id == old(reg).program_id,
        r matches Ok(action) ==> {
            &&& create_error(old(reg)@, old(reg).program_id@, *ctx, amount, lock_duration_days)
                is None
            &&& action == create_action(*ctx, amount, token_type)
            &&& create_transition(
                old(reg)@,
                final(reg)@,
                old(reg).program_id@,
                *ctx,
                now,
                amount,
                lock_duration_days,
                token_type,
            )
        },
        r matches Err(e) ==> {
            &&& Some(e) == create_error(old(reg)@, old(reg).program_id@, *ctx, amount, lock_duration_days)
            &&& final(reg)@ == old(reg)@
        },
{
    if let Err(e) = validate_create(amount, lock_duration_days) {
        return Err(e);
    }
    let derived = derive_vault_address(&ctx.owner, &reg.program_id);
    match derived {
        None => Err(VaultError::AddressOccupied),
        Some((address, bump)) => {
            if reg.find_index(&address).is_some() || reg.contains_owner(&ctx.owner) {
                return Err(VaultError::AddressOccupied);
            }
            let record = build_record(ctx.owner, amount, lock_duration_days, token_type, now, bump);
            let stored = StoredVault { address, record, custody: amount };
            proof {
                lemma_find_address_spec(reg@, address@);
                lemma_find_owner_spec(reg@, ctx.owner@);
                assert(reg@.push(stored).drop_last() =~= reg@);
            }
            reg.vaults.push(stored);
            Ok(
                TransferAction {
                    token: token_type,
                    from: ctx.user_token_account,
                    to: ctx.vault_token_account,
                    amount,
                    authority: Authority::OwnerSignature { owner: ctx.owner },
                },
            )
        },
    }
}

/// Withdraw the full deposit of the caller's matured vault: resolve the
/// caller's derived address, validate ownership, single use and maturity,
/// mark the record drained before any transfer runs, and hand back the
/// payout transfer for the Asset Transfer Service.
///
/// On any error the registry is unchanged. A failure of the transfer after
/// this call must be surfaced loudly by the caller (see
/// [`crate::errors::VaultError::TransferFailed`]), never masked.
pub fn withdraw(reg: &mut VaultRegistry, ctx: &Withdraw, now: i64) -> (r: Result<
    TransferAction,
    VaultError,
>)
    requires
        old(reg).wf(),
    ensures
        final(reg).wf(),
        final(reg).program_id == old(reg).program_id,
        r matches Ok(action) ==> {
            &&& withdraw_error(old(reg)@, old(reg).program_id@, *ctx, now) is None
            &&& final(reg)@ == withdraw_post(old(reg)@, old(reg).program_id@, *ctx)
            &&& Some(action) == withdraw_action(old(reg)@, old(reg).program_id@, *ctx)
        },
        r matches Err(e) ==> {
            &&& Some(e) == withdraw_error(old(reg)@, old(reg).program_id@, *ctx, now)
            &&& final(reg)@ == old(reg)@
        },
{
    let derived = derive_vault_address(&ctx.owner, &reg.program_id);
    match derived {
        None => Err(VaultError::VaultNotFound),
        Some((address, _bump)) => {
            match reg.find_index(&address) {
                None => Err(VaultError::VaultNotFound),
                Some(i) => {
                    proof {
                        lemma_find_address_spec(reg@, address@);
                    }
                    let amount = match authorize_withdraw(&reg.vaults[i].record, &ctx.owner, now) {
                        Err(e) => return Err(e),
                        Ok(amount) => amount,
                    };
                    let bump = reg.vaults[i].record.bump;
                    let token = reg.vaults[i].record.token_type;
                    let drained = StoredVault {
                        address: reg.vaults[i].address,
                        record: VaultAccount {
                            is_withdrawn: true,
                            ..reg.vaults[i].record
                        },
                        custody: 0,
                    };
                    reg.vaults[i] = drained;
                    Ok(
                        TransferAction {
                            token,
                            from: ctx.vault_token_account,
                            to: ctx.user_token_account,
                            amount,
                            authority: Authority::VaultDerivation { owner: ctx.owner, bump },
                        },
                    )
                },
            }
        },
    }
}

/// Interpret the Asset Transfer Service's outcome: a failed asset move is
/// surfaced as the distinct `TransferFailed` error, never masked.
pub fn transfer_result(succeeded: bool) -> (r: Result<(), VaultError>)
    ensures
        r is Ok <==> succeeded,
        !succeeded ==> r == Err::<(), VaultError>(VaultError::TransferFailed),
{
    if succeeded {
        Ok(())
    } else {
        Err(VaultError::TransferFailed)
    }
}

} // verus!
