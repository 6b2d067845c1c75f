use std::str::FromStr;

use anchorage_bridge::{
    global_state_address, initialize_vault, initialize_vault_at, toggle_freeze, toggle_freeze_at,
    transfer_hook, transfer_hook_at, vault_address, ErrorCode, GlobalState, InitializeVault,
    Ledger, Pubkey, Record, ToggleFreeze, TransferHook, VaultState,
};

type Key = anchor_lang::solana_program::pubkey::Pubkey;

fn program_id() -> Pubkey {
    let k = Key::from_str("2vganB6PWb5jPef8ocKtjJWrSTWQuW1ZsP9RTadndfDz").unwrap();
    Pubkey::new_from_array(k.to_bytes())
}

fn key(b: u8) -> Pubkey {
    Pubkey::new_from_array([b; 32])
}

fn alice() -> Pubkey {
    key(0xa1)
}

fn bob() -> Pubkey {
    key(0xb0)
}

fn init_ctx(ledger: &Ledger, who: Pubkey) -> InitializeVault {
    InitializeVault {
        vault_account: vault_address(&who, ledger.program_id()).unwrap(),
        authority: who,
        authority_is_signer: true,
    }
}

fn toggle_ctx(ledger: &Ledger, who: Pubkey) -> ToggleFreeze {
    ToggleFreeze {
        global_state: global_state_address(ledger.program_id()).unwrap(),
        authority: who,
        authority_is_signer: true,
    }
}

fn hook_ctx(ledger: &Ledger) -> TransferHook {
    TransferHook {
        global_state: global_state_address(ledger.program_id()).unwrap(),
        source_token: key(1),
        mint: key(2),
        destination_token: key(3),
        owner: key(4),
        extra_metas: key(5),
    }
}

fn flag(ledger: &Ledger) -> Option<bool> {
    let g = global_state_address(ledger.program_id()).unwrap();
    ledger.global_state(&g).map(|s| s.is_frozen)
}

#[test]
fn vault_address_matches_ledger_derivation() {
    let pid = program_id();
    let id = Key::new_from_array(pid.bytes);
    let (expected, _bump) = Key::find_program_address(&[b"vault", &alice().bytes], &id);
    let got = vault_address(&alice(), &pid).unwrap();
    assert_eq!(got.bytes, expected.to_bytes());
    assert_ne!(got, alice());
}

#[test]
fn global_state_address_matches_ledger_derivation() {
    let pid = program_id();
    let id = Key::new_from_array(pid.bytes);
    let (expected, _bump) = Key::find_program_address(&[b"global-state"], &id);
    let got = global_state_address(&pid).unwrap();
    assert_eq!(got.bytes, expected.to_bytes());
    assert_ne!(got, pid);
}

#[test]
fn derivation_is_deterministic_and_separates_owners() {
    let pid = program_id();
    let a1 = vault_address(&alice(), &pid).unwrap();
    let a2 = vault_address(&alice(), &pid).unwrap();
    let b = vault_address(&bob(), &pid).unwrap();
    let g = global_state_address(&pid).unwrap();
    assert_eq!(a1, a2);
    assert_ne!(a1, b);
    assert_ne!(a1, g);
    assert_ne!(b, g);
}

#[test]
fn scenario_initialize_vault_alice() {
    let mut ledger = Ledger::new(program_id());
    let ctx = init_ctx(&ledger, alice());
    assert_eq!(initialize_vault(&mut ledger, &ctx), Ok(()));
    let v = ledger.vault(&ctx.vault_account).unwrap();
    assert_eq!(v, VaultState { owner: alice(), collateral_amount: 0 });
}

#[test]
fn initialize_vault_twice_fails() {
    let mut ledger = Ledger::new(program_id());
    let ctx = init_ctx(&ledger, alice());
    assert_eq!(initialize_vault(&mut ledger, &ctx), Ok(()));
    assert_eq!(initialize_vault(&mut ledger, &ctx), Err(ErrorCode::AccountAlreadyInitialized));
    let v = ledger.vault(&ctx.vault_account).unwrap();
    assert_eq!(v, VaultState { owner: alice(), collateral_amount: 0 });
}

#[test]
fn two_owners_get_two_vaults() {
    let mut ledger = Ledger::new(program_id());
    let a = init_ctx(&ledger, alice());
    let b = init_ctx(&ledger, bob());
    assert_eq!(initialize_vault(&mut ledger, &a), Ok(()));
    assert_eq!(initialize_vault(&mut ledger, &b), Ok(()));
    assert_eq!(ledger.vault(&a.vault_account).unwrap().owner, alice());
    assert_eq!(ledger.vault(&b.vault_account).unwrap().owner, bob());
}

#[test]
fn initialize_vault_unsigned_fails() {
    let mut ledger = Ledger::new(program_id());
    let mut ctx = init_ctx(&ledger, alice());
    ctx.authority_is_signer = false;
    assert_eq!(initialize_vault(&mut ledger, &ctx), Err(ErrorCode::AccountNotSigner));
    assert_eq!(ledger.account(&ctx.vault_account), None);
}

#[test]
fn initialize_vault_wrong_address_fails() {
    let mut ledger = Ledger::new(program_id());
    let bob_vault = init_ctx(&ledger, bob()).vault_account;
    let ctx = InitializeVault { vault_account: bob_vault, authority: alice(), authority_is_signer: true };
    assert_eq!(initialize_vault(&mut ledger, &ctx), Err(ErrorCode::ConstraintSeeds));
    assert_eq!(ledger.account(&bob_vault), None);
}

#[test]
fn initialize_vault_without_address_fails() {
    let mut ledger = Ledger::new(program_id());
    let ctx = InitializeVault { vault_account: key(9), authority: alice(), authority_is_signer: true };
    assert_eq!(initialize_vault_at(&mut ledger, &ctx, None), Err(ErrorCode::NoViableBump));
    assert_eq!(initialize_vault_at(&mut ledger, &ctx, Some(key(9))), Ok(()));
    assert_eq!(ledger.vault(&key(9)), Some(VaultState { owner: alice(), collateral_amount: 0 }));
}

#[test]
fn scenario_freeze_rejects_transfer() {
    let mut ledger = Ledger::new(program_id());
    let t = toggle_ctx(&ledger, alice());
    assert_eq!(toggle_freeze(&mut ledger, &t, true), Ok(()));
    assert_eq!(flag(&ledger), Some(true));
    let h = hook_ctx(&ledger);
    assert_eq!(transfer_hook(&ledger, &h, 1000), Err(ErrorCode::BridgeIsFrozen));
}

#[test]
fn scenario_unfreeze_approves_transfer() {
    let mut ledger = Ledger::new(program_id());
    let t = toggle_ctx(&ledger, alice());
    let h = hook_ctx(&ledger);
    assert_eq!(toggle_freeze(&mut ledger, &t, true), Ok(()));
    assert_eq!(transfer_hook(&ledger, &h, 1000), Err(ErrorCode::BridgeIsFrozen));
    assert_eq!(toggle_freeze(&mut ledger, &t, false), Ok(()));
    assert_eq!(flag(&ledger), Some(false));
    assert_eq!(transfer_hook(&ledger, &h, 1000), Ok(()));
}

#[test]
fn scenario_transfer_before_any_toggle() {
    let ledger = Ledger::new(program_id());
    let h = hook_ctx(&ledger);
    assert_eq!(transfer_hook(&ledger, &h, 1000), Err(ErrorCode::AccountNotInitialized));
}

#[test]
fn toggle_freeze_last_value_wins() {
    for b1 in [false, true] {
        for b2 in [false, true] {
            let mut ledger = Ledger::new(program_id());
            let t = toggle_ctx(&ledger, alice());
            let u = toggle_ctx(&ledger, bob());
            assert_eq!(toggle_freeze(&mut ledger, &t, b1), Ok(()));
            assert_eq!(flag(&ledger), Some(b1));
            assert_eq!(toggle_freeze(&mut ledger, &u, b2), Ok(()));
            assert_eq!(flag(&ledger), Some(b2));
        }
    }
}

#[test]
fn toggle_freeze_first_value_may_be_frozen_or_not() {
    let mut ledger = Ledger::new(program_id());
    let t = toggle_ctx(&ledger, bob());
    assert_eq!(toggle_freeze(&mut ledger, &t, false), Ok(()));
    assert_eq!(flag(&ledger), Some(false));
}

#[test]
fn toggle_freeze_unsigned_fails() {
    let mut ledger = Ledger::new(program_id());
    let mut t = toggle_ctx(&ledger, alice());
    t.authority_is_signer = false;
    assert_eq!(toggle_freeze(&mut ledger, &t, true), Err(ErrorCode::AccountNotSigner));
    assert_eq!(flag(&ledger), None);
}

#[test]
fn toggle_freeze_wrong_address_fails() {
    let mut ledger = Ledger::new(program_id());
    let t = ToggleFreeze { global_state: key(7), authority: alice(), authority_is_signer: true };
    assert_eq!(toggle_freeze(&mut ledger, &t, true), Err(ErrorCode::ConstraintSeeds));
    assert_eq!(ledger.account(&key(7)), None);
}

#[test]
fn toggle_freeze_over_vault_fails() {
    let mut ledger = Ledger::new(program_id());
    let init = InitializeVault { vault_account: key(8), authority: alice(), authority_is_signer: true };
    assert_eq!(initialize_vault_at(&mut ledger, &init, Some(key(8))), Ok(()));
    let t = ToggleFreeze { global_state: key(8), authority: alice(), authority_is_signer: true };
    assert_eq!(toggle_freeze_at(&mut ledger, &t, Some(key(8)), true), Err(ErrorCode::AccountDiscriminatorMismatch));
    assert_eq!(toggle_freeze_at(&mut ledger, &t, None, true), Err(ErrorCode::NoViableBump));
    assert_eq!(ledger.account(&key(8)), Some(Record::Vault(VaultState { owner: alice(), collateral_amount: 0 })));
}

#[test]
fn transfer_hook_ignores_amount_and_token_accounts() {
    let mut ledger = Ledger::new(program_id());
    let t = toggle_ctx(&ledger, alice());
    assert_eq!(toggle_freeze(&mut ledger, &t, false), Ok(()));
    let mut h = hook_ctx(&ledger);
    for amount in [0u64, 1, 1000, u64::MAX] {
        assert_eq!(transfer_hook(&ledger, &h, amount), Ok(()));
    }
    h.source_token = key(0x11);
    h.mint = key(0x12);
    h.destination_token = key(0x13);
    h.owner = key(0x14);
    h.extra_metas = key(0x15);
    assert_eq!(transfer_hook(&ledger, &h, u64::MAX), Ok(()));
    assert_eq!(toggle_freeze(&mut ledger, &t, true), Ok(()));
    for amount in [0u64, 1, 1000, u64::MAX] {
        assert_eq!(transfer_hook(&ledger, &h, amount), Err(ErrorCode::BridgeIsFrozen));
    }
}

#[test]
fn transfer_hook_wrong_global_address_fails() {
    let mut ledger = Ledger::new(program_id());
    let real = global_state_address(ledger.program_id()).unwrap();
    let t = ToggleFreeze { global_state: key(6), authority: alice(), authority_is_signer: true };
    assert_eq!(toggle_freeze_at(&mut ledger, &t, Some(key(6)), false), Ok(()));
    let mut h = hook_ctx(&ledger);
    h.global_state = key(6);
    assert_eq!(transfer_hook(&ledger, &h, 5), Err(ErrorCode::ConstraintSeeds));
    assert_eq!(transfer_hook_at(&ledger, &h, Some(real), 5), Err(ErrorCode::ConstraintSeeds));
    assert_eq!(transfer_hook_at(&ledger, &h, Some(key(6)), 5), Ok(()));
    assert_eq!(transfer_hook_at(&ledger, &h, None, 5), Err(ErrorCode::NoViableBump));
}

#[test]
fn transfer_hook_on_vault_record_fails() {
    let mut ledger = Ledger::new(program_id());
    let ctx = init_ctx(&ledger, alice());
    assert_eq!(initialize_vault(&mut ledger, &ctx), Ok(()));
    let mut h = hook_ctx(&ledger);
    h.global_state = ctx.vault_account;
    assert_eq!(transfer_hook(&ledger, &h, 1), Err(ErrorCode::AccountDiscriminatorMismatch));
}

#[test]
fn vault_survives_freeze_toggles() {
    let mut ledger = Ledger::new(program_id());
    let ctx = init_ctx(&ledger, alice());
    assert_eq!(initialize_vault(&mut ledger, &ctx), Ok(()));
    let t = toggle_ctx(&ledger, bob());
    assert_eq!(toggle_freeze(&mut ledger, &t, true), Ok(()));
    assert_eq!(toggle_freeze(&mut ledger, &t, false), Ok(()));
    assert_eq!(ledger.vault(&ctx.vault_account), Some(VaultState { owner: alice(), collateral_amount: 0 }));
    assert_eq!(ledger.global_state(&t.global_state), Some(GlobalState { is_frozen: false }));
    assert_eq!(ledger.vault(&t.global_state), None);
    assert_eq!(ledger.global_state(&ctx.vault_account), None);
}

#[test]
fn account_sizes() {
    assert_eq!(anchorage_bridge::DISCRIMINATOR_LEN + VaultState::INIT_SPACE, 48);
    assert_eq!(anchorage_bridge::DISCRIMINATOR_LEN + GlobalState::INIT_SPACE, 9);
}
