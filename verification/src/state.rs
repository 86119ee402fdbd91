//! The records that the program keeps, and the token sub-accounts that it
//! reads.

pub mod account;
pub mod admin_state;
pub mod token_account;
pub mod treasury_state;
pub mod user_pda;
