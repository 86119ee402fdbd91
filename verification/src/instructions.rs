//! The operations of the program, one to a module.

pub mod admin_batch_transfer_to_treasury;
pub mod admin_transfer_to_treasury;
pub mod create_user_deposit_account;
pub mod deposit_tokens;
pub mod find_user_pda_address;
pub mod get_admin_info;
pub mod get_treasury_info;
pub mod get_user_deposit_info;
pub mod initialize;
pub mod update_admin;
