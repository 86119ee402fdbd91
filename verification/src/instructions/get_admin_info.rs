//! Who administers the program, and since when.

use crate::address::Address;
use crate::errors::ErrorCode;
use crate::state::admin_state::AdminState;
use vstd::prelude::*;

verus! {

/// What the query reads: the administrator record.
#[derive(Clone, Copy, Debug, PartialEq, Eq)]
pub struct GetAdminInfo {
    pub admin_state: AdminState,
}

/// What the query tells of the administrator record.
#[derive(Clone, Copy, Debug, PartialEq, Eq)]
pub struct AdminInfo {
    pub admin: Address,
    pub created_at: i64,
}

/// Tells the administrator on record and when the record was created. The
/// query never fails.
pub fn get_admin_info(ctx: &GetAdminInfo) -> (result: Result<AdminInfo, ErrorCode>)
    ensures
        result == Ok::<AdminInfo, ErrorCode>(
            AdminInfo { admin: ctx.admin_state.admin, created_at: ctx.admin_state.created_at },
        ),
{
    Ok(AdminInfo { admin: ctx.admin_state.admin, created_at: ctx.admin_state.created_at })
}

} // verus!
