//! What the treasury holds.

use crate::address::Address;
use crate::errors::ErrorCode;
use crate::state::account::Account;
use crate::state::token_account::TokenAccount;
use crate::state::treasury_state::TreasuryState;
use crate::validation::{check_treasury, treasury_error};
use vstd::prelude::*;

verus! {

/// What the query reads: the treasury record and the treasury's token
/// sub-account.
#[derive(Clone, Debug, PartialEq, Eq)]
pub struct GetTreasuryInfo {
    pub treasury_state: TreasuryState,
    pub treasury_ata: Account<TokenAccount>,
}

/// What the query tells of the treasury.
#[derive(Clone, Copy, Debug, PartialEq, Eq)]
pub struct TreasuryInfo {
    pub token_mint: Address,
    pub treasury_ata: Address,
    /// The balance of the treasury's sub-account, as it was read.
    pub balance: u64,
    pub created_at: i64,
}

impl GetTreasuryInfo {
    /// Why the query is refused, if it is: the sub-account that was supplied
    /// is not the one that the record names, or holds another token type.
    pub open spec fn error(&self) -> Option<ErrorCode> {
        treasury_error(self.treasury_state, self.treasury_ata.address, self.treasury_ata.data.mint)
    }
}

/// Tells the token type of the treasury, its sub-account and the balance of
/// that sub-account.
pub fn get_treasury_info(ctx: &GetTreasuryInfo) -> (result: Result<TreasuryInfo, ErrorCode>)
    ensures
        match result {
            Ok(info) => ctx.error() is None && info == (TreasuryInfo {
                token_mint: ctx.treasury_state.token_mint,
                treasury_ata: ctx.treasury_state.treasury_ata,
                balance: ctx.treasury_ata.data.amount,
                created_at: ctx.treasury_state.created_at,
            }),
            Err(error) => ctx.error() == Some(error),
        },
{
    check_treasury(&ctx.treasury_state, &ctx.treasury_ata.address, &ctx.treasury_ata.data.mint)?;
    Ok(
        TreasuryInfo {
            token_mint: ctx.treasury_state.token_mint,
            treasury_ata: ctx.treasury_state.treasury_ata,
            balance: ctx.treasury_ata.data.amount,
            created_at: ctx.treasury_state.created_at,
        },
    )
}

} // verus!
