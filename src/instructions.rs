//! The program's three instructions: vault creation, freeze toggling and the
//! transfer hook that enforces the freeze.
use vstd::prelude::*;

use crate::address::{
    derived_address, global_state_address, global_state_seeds, key_option_view, vault_address,
    vault_seeds,
};
use crate::pubkey::Pubkey;
use crate::state::{ErrorCode, GlobalState, Ledger, Record, VaultState};

verus! {

/// The accounts of `initialize_vault`.
#[derive(Clone, Copy, Debug)]
pub struct InitializeVault {
    /// Where the new vault is to be created.
    pub vault_account: Pubkey,
    /// The owner of the new vault, who pays for it.
    pub authority: Pubkey,
    /// Whether `authority` signed the transaction.
    pub authority_is_signer: bool,
}

/// The accounts of `toggle_freeze`.
#[derive(Clone, Copy, Debug)]
pub struct ToggleFreeze {
    /// Where the global state is, or is to be created.
    pub global_state: Pubkey,
    /// Whoever sets the flag, and pays for the record if it is new.
    pub authority: Pubkey,
    /// Whether `authority` signed the transaction.
    pub authority_is_signer: bool,
}

/// The accounts of `transfer_hook`. The five token accounts are passed
/// through unchecked: the token program that calls the hook validates them.
#[derive(Clone, Copy, Debug)]
pub struct TransferHook {
    pub global_state: Pubkey,
    pub source_token: Pubkey,
    pub mint: Pubkey,
    pub destination_token: Pubkey,
    pub owner: Pubkey,
    pub extra_metas: Pubkey,
}

/// The store after an instruction, or the error it fails with.
pub type Outcome = Result<Map<Seq<u8>, Record>, ErrorCode>;

/// The store after `initialize_vault`, given the address derived for the vault.
pub open spec fn initialize_vault_outcome(
    accounts: Map<Seq<u8>, Record>,
    ctx: InitializeVault,
    derived: Option<Seq<u8>>,
) -> Outcome {
    if !ctx.authority_is_signer {
        Err(ErrorCode::AccountNotSigner)
    } else if derived is None {
        Err(ErrorCode::NoViableBump)
    } else if ctx.vault_account@ != derived->Some_0 {
        Err(ErrorCode::ConstraintSeeds)
    } else if accounts.contains_key(ctx.vault_account@) {
        Err(ErrorCode::AccountAlreadyInitialized)
    } else {
        Ok(accounts.insert(
            ctx.vault_account@,
            Record::Vault(VaultState { owner: ctx.authority, collateral_amount: 0 }),
        ))
    }
}

/// The store after `toggle_freeze`, given the address derived for the global state.
pub open spec fn toggle_freeze_outcome(
    accounts: Map<Seq<u8>, Record>,
    ctx: ToggleFreeze,
    derived: Option<Seq<u8>>,
    frozen: bool,
) -> Outcome {
    if !ctx.authority_is_signer {
        Err(ErrorCode::AccountNotSigner)
    } else if derived is None {
        Err(ErrorCode::NoViableBump)
    } else if ctx.global_state@ != derived->Some_0 {
        Err(ErrorCode::ConstraintSeeds)
    } else if accounts.contains_key(ctx.global_state@) && !(accounts[ctx.global_state@] is Global) {
        Err(ErrorCode::AccountDiscriminatorMismatch)
    } else {
        Ok(accounts.insert(ctx.global_state@, Record::Global(GlobalState { is_frozen: frozen })))
    }
}

/// The result of `transfer_hook`, given the address derived for the global state.
pub open spec fn transfer_hook_outcome(
    accounts: Map<Seq<u8>, Record>,
    ctx: TransferHook,
    derived: Option<Seq<u8>>,
) -> Result<(), ErrorCode> {
    if !accounts.contains_key(ctx.global_state@) {
        Err(ErrorCode::AccountNotInitialized)
    } else if !(accounts[ctx.global_state@] is Global) {
        Err(ErrorCode::AccountDiscriminatorMismatch)
    } else if derived is None {
        Err(ErrorCode::NoViableBump)
    } else if ctx.global_state@ != derived->Some_0 {
        Err(ErrorCode::ConstraintSeeds)
    } else if accounts[ctx.global_state@]->Global_0.is_frozen {
        Err(ErrorCode::BridgeIsFrozen)
    } else {
        Ok(())
    }
}

/// `after` and `r` are what an instruction with outcome `outcome` leaves:
/// on failure nothing changes.
pub open spec fn applied(
    before: Map<Seq<u8>, Record>,
    after: Map<Seq<u8>, Record>,
    r: Result<(), ErrorCode>,
    outcome: Outcome,
) -> bool {
    match outcome {
        Ok(m) => r is Ok && after == m,
        Err(e) => r == Err::<(), ErrorCode>(e) && after == before,
    }
}

/// Creates the vault of `ctx.authority` at `ctx.vault_account`, given the
/// address derived for it.
pub fn initialize_vault_at(ledger: &mut Ledger, ctx: &InitializeVault, derived: Option<Pubkey>) -> (r: Result<(), ErrorCode>)
    requires
        old(ledger).wf(),
    ensures
        final(ledger).wf(),
        final(ledger).id() == old(ledger).id(),
        applied(old(ledger)@, final(ledger)@, r, initialize_vault_outcome(old(ledger)@, *ctx, key_option_view(derived))),
{
    if !ctx.authority_is_signer {
        return Err(ErrorCode::AccountNotSigner);
    }
    let expected = match derived {
        Some(a) => a,
        None => {
            return Err(ErrorCode::NoViableBump);
        },
    };
    if ctx.vault_account != expected {
        return Err(ErrorCode::ConstraintSeeds);
    }
    if ledger.account(&ctx.vault_account).is_some() {
        return Err(ErrorCode::AccountAlreadyInitialized);
    }
    let vault = VaultState { owner: ctx.authority, collateral_amount: 0 };
    ledger.store(ctx.vault_account, Record::Vault(vault));
    Ok(())
}

/// Creates the vault of `ctx.authority`, owned by it and holding no collateral.
pub fn initialize_vault(ledger: &mut Ledger, ctx: &InitializeVault) -> (r: Result<(), ErrorCode>)
    requires
        old(ledger).wf(),
    ensures
        final(ledger).wf(),
        final(ledger).id() == old(ledger).id(),
        applied(
            old(ledger)@,
            final(ledger)@,
            r,
            initialize_vault_outcome(
                old(ledger)@,
                *ctx,
                derived_address(vault_seeds(ctx.authority@), old(ledger).id()@),
            ),
        ),
{
    let derived = vault_address(&ctx.authority, ledger.program_id());
    initialize_vault_at(ledger, ctx, derived)
}

/// Sets the global freeze flag to `frozen`, creating the global state at
/// `ctx.global_state` if needed, given the address derived for it. Any
/// signer may do so.
pub fn toggle_freeze_at(ledger: &mut Ledger, ctx: &ToggleFreeze, derived: Option<Pubkey>, frozen: bool) -> (r: Result<(), ErrorCode>)
    requires
        old(ledger).wf(),
    ensures
        final(ledger).wf(),
        final(ledger).id() == old(ledger).id(),
        applied(old(ledger)@, final(ledger)@, r, toggle_freeze_outcome(old(ledger)@, *ctx, key_option_view(derived), frozen)),
{
    if !ctx.authority_is_signer {
        return Err(ErrorCode::AccountNotSigner);
    }
    let expected = match derived {
        Some(a) => a,
        None => {
            return Err(ErrorCode::NoViableBump);
        },
    };
    if ctx.global_state != expected {
        return Err(ErrorCode::ConstraintSeeds);
    }
    match ledger.account(&ctx.global_state) {
        Some(Record::Vault(_)) => {
            return Err(ErrorCode::AccountDiscriminatorMismatch);
        },
        _ => {},
    }
    ledger.store(ctx.global_state, Record::Global(GlobalState { is_frozen: frozen }));
    Ok(())
}

/// Sets the global freeze flag to `frozen`, creating the global state if
/// needed. Any signer may do so.
pub fn toggle_freeze(ledger: &mut Ledger, ctx: &ToggleFreeze, frozen: bool) -> (r: Result<(), ErrorCode>)
    requires
        old(ledger).wf(),
    ensures
        final(ledger).wf(),
        final(ledger).id() == old(ledger).id(),
        applied(
            old(ledger)@,
            final(ledger)@,
            r,
            toggle_freeze_outcome(
                old(ledger)@,
                *ctx,
                derived_address(global_state_seeds(), old(ledger).id()@),
                frozen,
            ),
        ),
{
    let derived = global_state_address(ledger.program_id());
    toggle_freeze_at(ledger, ctx, derived, frozen)
}

/// Approves a transfer unless the bridge is frozen, given the address
/// derived for the global state. The amount is not inspected.
pub fn transfer_hook_at(ledger: &Ledger, ctx: &TransferHook, derived: Option<Pubkey>, _amount: u64) -> (r: Result<(), ErrorCode>)
    requires
        ledger.wf(),
    ensures
        r == transfer_hook_outcome(ledger@, *ctx, key_option_view(derived)),
{
    let state = match ledger.account(&ctx.global_state) {
        None => {
            return Err(ErrorCode::AccountNotInitialized);
        },
        Some(Record::Vault(_)) => {
            return Err(ErrorCode::AccountDiscriminatorMismatch);
        },
        Some(Record::Global(g)) => g,
    };
    let expected = match derived {
        Some(a) => a,
        None => {
            return Err(ErrorCode::NoViableBump);
        },
    };
    if ctx.global_state != expected {
        return Err(ErrorCode::ConstraintSeeds);
    }
    if state.is_frozen {
        return Err(ErrorCode::BridgeIsFrozen);
    }
    Ok(())
}

/// Approves a transfer unless the bridge is frozen. The amount and the five
/// token accounts are not inspected.
pub fn transfer_hook(ledger: &Ledger, ctx: &TransferHook, amount: u64) -> (r: Result<(), ErrorCode>)
    requires
        ledger.wf(),
    ensures
        r == transfer_hook_outcome(ledger@, *ctx, derived_address(global_state_seeds(), ledger.id()@)),
{
    let derived = global_state_address(ledger.program_id());
    transfer_hook_at(ledger, ctx, derived, amount)
}

} // verus!
