//! Properties that hold across calls of the instructions.
use vstd::prelude::*;

use crate::address::{derived_address, global_state_seeds, vault_seeds};
use crate::instructions::{
    initialize_vault_outcome, toggle_freeze_outcome, transfer_hook_outcome, InitializeVault,
    ToggleFreeze, TransferHook,
};
use crate::pubkey::Pubkey;
use crate::state::{ErrorCode, GlobalState, Record, VaultState};

verus! {

/// A signer whose vault address is still free creates its vault with the
/// first call: the vault is owned by the signer and holds no collateral.
/// Every later signed call of the same owner at that address fails as
/// already initialized.
pub proof fn lemma_initialize_vault_once(
    accounts: Map<Seq<u8>, Record>,
    ctx: InitializeVault,
    program_id: Pubkey,
)
    requires
        ctx.authority_is_signer,
        derived_address(vault_seeds(ctx.authority@), program_id@) == Some(ctx.vault_account@),
        !accounts.contains_key(ctx.vault_account@),
    ensures
        ({
            let d = derived_address(vault_seeds(ctx.authority@), program_id@);
            let first = initialize_vault_outcome(accounts, ctx, d);
            &&& first is Ok
            &&& first->Ok_0[ctx.vault_account@] == Record::Vault(VaultState { owner: ctx.authority, collateral_amount: 0 })
            &&& forall|again: InitializeVault|
                again.authority@ == ctx.authority@ && again.authority_is_signer && again.vault_account@ == ctx.vault_account@
                    ==> #[trigger] initialize_vault_outcome(first->Ok_0, again, derived_address(vault_seeds(again.authority@), program_id@))
                        == Err::<Map<Seq<u8>, Record>, ErrorCode>(ErrorCode::AccountAlreadyInitialized)
        }),
{
}

/// Setting the freeze flag to `b1` and then to `b2` leaves it at `b2`: once
/// a first call has succeeded, a second signed call at the same address
/// succeeds too and overwrites the flag unconditionally.
pub proof fn lemma_toggle_freeze_last_wins(
    accounts: Map<Seq<u8>, Record>,
    first: ToggleFreeze,
    second: ToggleFreeze,
    program_id: Pubkey,
    b1: bool,
    b2: bool,
)
    requires
        toggle_freeze_outcome(accounts, first, derived_address(global_state_seeds(), program_id@), b1) is Ok,
        second.authority_is_signer,
        second.global_state@ == first.global_state@,
    ensures
        ({
            let d = derived_address(global_state_seeds(), program_id@);
            let m1 = toggle_freeze_outcome(accounts, first, d, b1)->Ok_0;
            let m2 = toggle_freeze_outcome(m1, second, d, b2);
            &&& m1[first.global_state@] == Record::Global(GlobalState { is_frozen: b1 })
            &&& m2 is Ok
            &&& m2->Ok_0[first.global_state@] == Record::Global(GlobalState { is_frozen: b2 })
        }),
{
}

/// At the canonical global state address, a transfer is approved exactly
/// when the global state exists and is not frozen, whatever the five token
/// accounts hold.
pub proof fn lemma_transfer_hook_gate(accounts: Map<Seq<u8>, Record>, ctx: TransferHook, program_id: Pubkey)
    requires
        derived_address(global_state_seeds(), program_id@) == Some(ctx.global_state@),
    ensures
        ({
            let d = derived_address(global_state_seeds(), program_id@);
            &&& (transfer_hook_outcome(accounts, ctx, d) is Ok) <==> (accounts.contains_key(ctx.global_state@)
                && accounts[ctx.global_state@] == Record::Global(GlobalState { is_frozen: false }))
            &&& forall|other: TransferHook|
                other.global_state == ctx.global_state ==> #[trigger] transfer_hook_outcome(accounts, other, d)
                    == transfer_hook_outcome(accounts, ctx, d)
        }),
{
}

/// The address derivation under `program_id` never maps two different seed
/// lists to one address.
pub open spec fn derivation_collision_free(program_id: Seq<u8>) -> bool {
    forall|s1: Seq<Seq<u8>>, s2: Seq<Seq<u8>>|
        #[trigger] derived_address(s1, program_id) is Some && #[trigger] derived_address(s2, program_id)
            == derived_address(s1, program_id) ==> s1 == s2
}

/// Given a collision-free derivation, two different owners never share a
/// vault address, and no vault lies at the global state's address.
/// (The derivation is a function: one owner always gets one address.)
pub proof fn lemma_vault_addresses_distinct(a: Pubkey, b: Pubkey, program_id: Pubkey)
    requires
        derivation_collision_free(program_id@),
        a@ != b@,
        derived_address(vault_seeds(a@), program_id@) is Some,
    ensures
        derived_address(vault_seeds(a@), program_id@) != derived_address(vault_seeds(b@), program_id@),
        derived_address(vault_seeds(a@), program_id@) != derived_address(global_state_seeds(), program_id@),
{
    if derived_address(vault_seeds(a@), program_id@) == derived_address(vault_seeds(b@), program_id@) {
        assert(vault_seeds(a@)[1] == a@);
        assert(vault_seeds(b@)[1] == b@);
    }
    if derived_address(vault_seeds(a@), program_id@) == derived_address(global_state_seeds(), program_id@) {
        assert(vault_seeds(a@).len() != global_state_seeds().len());
    }
}

/// Neither instruction that writes changes a vault that exists: a vault's
/// owner and collateral stay as they were created.
pub proof fn lemma_vaults_preserved(
    accounts: Map<Seq<u8>, Record>,
    init: InitializeVault,
    init_derived: Option<Seq<u8>>,
    toggle: ToggleFreeze,
    toggle_derived: Option<Seq<u8>>,
    frozen: bool,
    k: Seq<u8>,
)
    requires
        accounts.contains_key(k),
        accounts[k] is Vault,
    ensures
        initialize_vault_outcome(accounts, init, init_derived) is Ok
            ==> initialize_vault_outcome(accounts, init, init_derived)->Ok_0[k] == accounts[k],
        toggle_freeze_outcome(accounts, toggle, toggle_derived, frozen) is Ok
            ==> toggle_freeze_outcome(accounts, toggle, toggle_derived, frozen)->Ok_0[k] == accounts[k],
{
}

} // verus!
