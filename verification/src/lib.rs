//! Custodial deposit accounts for a single fungible-token type.
//!
//! Every user is given a custody account ("vault") whose address is derived
//! from the user's identifier, so that nobody holds a key for it. An
//! administrator may sweep funds from any vault into a shared treasury, one
//! vault at a time or in a bounded batch.
//!
//! The library decides; it never moves tokens itself. Each operation takes the
//! accounts it reads as plain values, checks them, and hands back the records
//! to store, the transfer orders to give to the token ledger and the events to
//! log. The host that calls it commits all of that or none of it.
//!
//! - `address`: addresses and identities.
//! - `derivation`: from a user's identifier to the address of the vault.
//! - `state`: the records that are kept, and the token sub-accounts that are
//!   read.
//! - `validation`: the checks that stand before every movement of funds.
//! - `instructions`: the operations, each with what it reads, what it
//!   decides and what holds of it.
//! - `transfer`, `events`, `errors`: what an operation hands back.

pub mod address;
pub mod derivation;
pub mod errors;
pub mod events;
pub mod instructions;
pub mod state;
pub mod transfer;
pub mod validation;

pub use crate::address::Address;
pub use crate::errors::{CreationError, ErrorCode};
pub use crate::instructions::admin_batch_transfer_to_treasury::{
    admin_batch_transfer_to_treasury, AccountHandle, AdminBatchTransferToTreasury, BatchReceipt,
};
pub use crate::instructions::admin_transfer_to_treasury::{
    admin_transfer_to_treasury, AdminTransferToTreasury, SweepReceipt,
};
pub use crate::instructions::create_user_deposit_account::{
    create_user_deposit_account, CreateAccountResult, CreateUserDepositAccount,
};
pub use crate::instructions::deposit_tokens::{deposit_tokens, DepositReceipt, DepositTokens};
pub use crate::instructions::find_user_pda_address::{find_user_pda_address, FindUserPdaAddress};
pub use crate::instructions::get_admin_info::{get_admin_info, AdminInfo, GetAdminInfo};
pub use crate::instructions::get_treasury_info::{get_treasury_info, GetTreasuryInfo, TreasuryInfo};
pub use crate::instructions::get_user_deposit_info::{
    get_user_deposit_info, GetUserDepositInfo, UserDepositInfo,
};
pub use crate::instructions::initialize::{initialize, Initialize};
pub use crate::instructions::initialize_test::{initialize_test, InitializeTest};
pub use crate::instructions::update_admin::{update_admin, UpdateAdmin};
pub use crate::state::account::Account;
pub use crate::state::admin_state::AdminState;
pub use crate::state::token_account::TokenAccount;
pub use crate::state::treasury_state::TreasuryState;
pub use crate::state::user_pda::UserPDA;
pub use crate::transfer::TransferOrder;
