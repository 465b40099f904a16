use savings_vault::errors::VaultError;
use savings_vault::lifecycle::create_vault;
use savings_vault::lifecycle::withdraw;
use savings_vault::lifecycle::Authority;
use savings_vault::lifecycle::CreateVault;
use savings_vault::lifecycle::Withdraw;
use savings_vault::registry::VaultRegistry;
use savings_vault::tokens::TokenType;

const PROGRAM_ID: [u8; 32] = [7u8; 32];

fn owner_a() -> [u8; 32] {
    [1u8; 32]
}

fn owner_b() -> [u8; 32] {
    [2u8; 32]
}

fn create_ctx(owner: [u8; 32]) -> CreateVault {
    CreateVault { owner, vault_token_account: [10u8; 32], user_token_account: [11u8; 32] }
}

fn withdraw_ctx(owner: [u8; 32]) -> Withdraw {
    Withdraw { owner, vault_token_account: [10u8; 32], user_token_account: [11u8; 32] }
}

#[test]
fn lock_of_29_days_is_too_short() {
    let mut reg = VaultRegistry::new(PROGRAM_ID);
    let r = create_vault(&mut reg, &create_ctx(owner_a()), 0, 1000, 29, TokenType::USDC);
    assert_eq!(r.unwrap_err(), VaultError::LockTooShort);
    assert_eq!(reg.vault_count(), 0);
}

#[test]
fn lock_of_1096_days_is_too_long() {
    let mut reg = VaultRegistry::new(PROGRAM_ID);
    let r = create_vault(&mut reg, &create_ctx(owner_a()), 0, 1000, 1096, TokenType::USDC);
    assert_eq!(r.unwrap_err(), VaultError::LockTooLong);
    assert_eq!(reg.vault_count(), 0);
}

#[test]
fn boundary_locks_of_30_and_1095_days_are_accepted() {
    let mut reg = VaultRegistry::new(PROGRAM_ID);
    let r30 = create_vault(&mut reg, &create_ctx(owner_a()), 0, 500, 30, TokenType::SOL);
    assert!(r30.is_ok());
    let r1095 = create_vault(&mut reg, &create_ctx(owner_b()), 0, 500, 1095, TokenType::USDT);
    assert!(r1095.is_ok());
    assert_eq!(reg.vault_count(), 2);
    let rec30 = reg.lookup(&owner_a()).unwrap();
    assert_eq!(rec30.unlock_time, 30 * 86400);
    let rec1095 = reg.lookup(&owner_b()).unwrap();
    assert_eq!(rec1095.unlock_time, 1095 * 86400);
}

#[test]
fn zero_amount_is_rejected_and_creates_no_record() {
    let mut reg = VaultRegistry::new(PROGRAM_ID);
    let r = create_vault(&mut reg, &create_ctx(owner_a()), 0, 0, 30, TokenType::JupUSD);
    assert_eq!(r.unwrap_err(), VaultError::InvalidAmount);
    assert_eq!(reg.vault_count(), 0);
    assert!(reg.lookup(&owner_a()).is_none());
}

#[test]
fn unlock_time_is_exactly_created_at_plus_duration() {
    let mut reg = VaultRegistry::new(PROGRAM_ID);
    let now: i64 = 1_000_000;
    let r = create_vault(&mut reg, &create_ctx(owner_a()), now, 42, 45, TokenType::USDC);
    assert!(r.is_ok());
    let rec = reg.lookup(&owner_a()).unwrap();
    assert_eq!(rec.created_at, now);
    assert_eq!(rec.lock_duration_days, 45);
    assert_eq!(rec.unlock_time, now + 45 * 86400);
}

#[test]
fn immediate_withdraw_is_still_locked() {
    let mut reg = VaultRegistry::new(PROGRAM_ID);
    let r = create_vault(&mut reg, &create_ctx(owner_a()), 0, 1000, 30, TokenType::USDC);
    assert!(r.is_ok());
    let w = withdraw(&mut reg, &withdraw_ctx(owner_a()), 0);
    assert_eq!(w.unwrap_err(), VaultError::StillLocked);
    assert!(!reg.lookup(&owner_a()).unwrap().is_withdrawn);
}

#[test]
fn second_create_for_same_owner_is_address_occupied() {
    let mut reg = VaultRegistry::new(PROGRAM_ID);
    let r = create_vault(&mut reg, &create_ctx(owner_a()), 0, 1000, 30, TokenType::USDC);
    assert!(r.is_ok());
    let r2 = create_vault(&mut reg, &create_ctx(owner_a()), 5, 2000, 60, TokenType::SOL);
    assert_eq!(r2.unwrap_err(), VaultError::AddressOccupied);
    assert_eq!(reg.vault_count(), 1);
    let rec = reg.lookup(&owner_a()).unwrap();
    assert_eq!(rec.amount, 1000);
}

#[test]
fn withdraw_without_a_vault_is_not_found() {
    let mut reg = VaultRegistry::new(PROGRAM_ID);
    let w = withdraw(&mut reg, &withdraw_ctx(owner_b()), 10_000_000);
    assert_eq!(w.unwrap_err(), VaultError::VaultNotFound);
}

#[test]
fn another_owner_cannot_withdraw_a_foreign_vault() {
    let mut reg = VaultRegistry::new(PROGRAM_ID);
    let r = create_vault(&mut reg, &create_ctx(owner_a()), 0, 1000, 30, TokenType::USDC);
    assert!(r.is_ok());
    // Owner B's request resolves B's own derived address, where no record
    // lives; B never reaches A's vault, whatever B signs.
    let w = withdraw(&mut reg, &withdraw_ctx(owner_b()), 40 * 86400);
    assert_eq!(w.unwrap_err(), VaultError::VaultNotFound);
    assert!(!reg.lookup(&owner_a()).unwrap().is_withdrawn);
}

#[test]
fn tampered_record_owner_is_unauthorized() {
    let mut reg = VaultRegistry::new(PROGRAM_ID);
    let r = create_vault(&mut reg, &create_ctx(owner_b()), 0, 300, 30, TokenType::SOL);
    assert!(r.is_ok());
    // Corrupt the stored owner behind the registry's back: the handler's
    // defense-in-depth check must refuse the real derivation owner now.
    reg.vaults[0].record.owner = owner_a();
    let w = withdraw(&mut reg, &withdraw_ctx(owner_b()), 40 * 86400);
    assert_eq!(w.unwrap_err(), VaultError::Unauthorized);
}

#[test]
fn withdrawing_one_vault_leaves_other_owners_untouched() {
    let mut reg = VaultRegistry::new(PROGRAM_ID);
    assert!(create_vault(&mut reg, &create_ctx(owner_a()), 0, 100, 30, TokenType::SOL).is_ok());
    assert!(create_vault(&mut reg, &create_ctx(owner_b()), 0, 200, 40, TokenType::JupUSD).is_ok());

    let w = withdraw(&mut reg, &withdraw_ctx(owner_a()), 30 * 86400);
    assert_eq!(w.unwrap().amount, 100);
    assert!(reg.lookup(&owner_a()).unwrap().is_withdrawn);

    let untouched = reg.lookup(&owner_b()).unwrap();
    assert!(!untouched.is_withdrawn);
    assert_eq!(untouched.amount, 200);
    assert_eq!(untouched.token_type, TokenType::JupUSD);
    assert_eq!(untouched.unlock_time, 40 * 86400);
}

#[test]
fn transfer_failure_is_surfaced_loudly() {
    assert_eq!(savings_vault::lifecycle::transfer_result(true), Ok(()));
    assert_eq!(
        savings_vault::lifecycle::transfer_result(false),
        Err(VaultError::TransferFailed)
    );
}

#[test]
fn funding_action_is_authorized_by_the_owner_signature() {
    let mut reg = VaultRegistry::new(PROGRAM_ID);
    let ctx = create_ctx(owner_a());
    let action = create_vault(&mut reg, &ctx, 0, 750, 90, TokenType::USDT).unwrap();
    assert_eq!(action.amount, 750);
    assert_eq!(action.token, TokenType::USDT);
    assert_eq!(action.from, ctx.user_token_account);
    assert_eq!(action.to, ctx.vault_token_account);
    match action.authority {
        Authority::OwnerSignature { owner } => assert_eq!(owner, owner_a()),
        Authority::VaultDerivation { .. } => panic!("funding must be signed by the owner"),
    }
}
