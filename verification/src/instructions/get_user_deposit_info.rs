//! What a custody record holds.

use crate::address::Address;
use crate::errors::ErrorCode;
use crate::state::account::Account;
use crate::state::user_pda::UserPDA;
use vstd::prelude::*;

verus! {

/// What the query reads: a custody record, at the address where it was found.
#[derive(Clone, Debug, PartialEq, Eq)]
pub struct GetUserDepositInfo {
    pub user_pda: Account<UserPDA>,
}

/// What the query tells of a custody record.
#[derive(Clone, Debug, PartialEq, Eq)]
pub struct UserDepositInfo {
    pub pda_address: Address,
    pub user_id: String,
    pub owner: Address,
    pub token_account: Address,
    pub created_at: i64,
}

/// `UserDepositInfo` as a value.
pub struct UserDepositInfoView {
    pub pda_address: Address,
    pub user_id: Seq<char>,
    pub owner: Address,
    pub token_account: Address,
    pub created_at: i64,
}

impl View for UserDepositInfo {
    type V = UserDepositInfoView;

    open spec fn view(&self) -> UserDepositInfoView {
        UserDepositInfoView {
            pda_address: self.pda_address,
            user_id: self.user_id@,
            owner: self.owner,
            token_account: self.token_account,
            created_at: self.created_at,
        }
    }
}

/// Tells where the custody record lives, whose it is, who created it, which
/// sub-account it names and when it was created. The query never fails.
pub fn get_user_deposit_info(ctx: &GetUserDepositInfo) -> (result: Result<UserDepositInfo, ErrorCode>)
    ensures
        result matches Ok(info) && info@ == (UserDepositInfoView {
            pda_address: ctx.user_pda.address,
            user_id: ctx.user_pda.data.user_id@,
            owner: ctx.user_pda.data.owner,
            token_account: ctx.user_pda.data.token_account,
            created_at: ctx.user_pda.data.created_at,
        }),
{
    Ok(
        UserDepositInfo {
            pda_address: ctx.user_pda.address,
            user_id: ctx.user_pda.data.user_id.clone(),
            owner: ctx.user_pda.data.owner,
            token_account: ctx.user_pda.data.token_account,
            created_at: ctx.user_pda.data.created_at,
        },
    )
}

} // verus!
