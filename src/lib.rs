//! Bridge control program: per-owner collateral vaults and a global freeze
//! flag that gates token transfers, over a model of the host's account store.

pub mod address;
pub mod instructions;
pub mod laws;
pub mod pubkey;
pub mod state;

pub use address::{global_state_address, vault_address};
pub use instructions::{
    initialize_vault, initialize_vault_at, toggle_freeze, toggle_freeze_at, transfer_hook,
    transfer_hook_at, InitializeVault, ToggleFreeze, TransferHook,
};
pub use pubkey::Pubkey;
pub use state::{ErrorCode, GlobalState, Ledger, Record, VaultState, DISCRIMINATOR_LEN};

