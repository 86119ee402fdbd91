//! The rotation of the administrator.

use crate::address::Address;
use crate::errors::ErrorCode;
use crate::events::AdminUpdated;
use crate::state::admin_state::AdminState;
use crate::validation::admin_error;
use vstd::prelude::*;

verus! {

/// The accounts of a rotation.
#[derive(Clone, Copy, Debug, PartialEq, Eq)]
pub struct UpdateAdmin {
    /// The administrator record.
    pub admin_state: AdminState,
    /// Who asks for the rotation.
    pub current_admin: Address,
}

impl UpdateAdmin {
    /// Why the rotation to `new_admin` is refused, if it is. The checks, in
    /// their order: the new administrator is not the null identity; the
    /// caller is the administrator on record; the new administrator is not
    /// the one on record.
    pub open spec fn error(&self, new_admin: Address) -> Option<ErrorCode> {
        if new_admin.is_null() {
            Some(ErrorCode::InvalidNewAdmin)
        } else if self.admin_state.admin != self.current_admin {
            Some(ErrorCode::UnauthorizedAdmin)
        } else if self.admin_state.admin == new_admin {
            Some(ErrorCode::SameAdminUpdate)
        } else {
            None
        }
    }
}

/// Replaces the administrator by `new_admin`.
///
/// Where the rotation is allowed, the record names the new administrator and
/// is otherwise as it was, and the event tells who was replaced, by whom.
/// Where it is refused, the record is left as it was.
pub fn update_admin(ctx: &mut UpdateAdmin, new_admin: Address) -> (result: Result<AdminUpdated, ErrorCode>)
    ensures
        match result {
            Ok(event) => {
                &&& old(ctx).error(new_admin) is None
                &&& *final(ctx) == (UpdateAdmin {
                    admin_state: AdminState { admin: new_admin, ..old(ctx).admin_state },
                    ..*old(ctx)
                })
                &&& event == (AdminUpdated {
                    old_admin: old(ctx).admin_state.admin,
                    new_admin: new_admin,
                    updated_by: old(ctx).current_admin,
                })
            },
            Err(error) => old(ctx).error(new_admin) == Some(error) && *final(ctx) == *old(ctx),
        },
{
    if new_admin.is_default() {
        return Err(ErrorCode::InvalidNewAdmin);
    }
    if ctx.admin_state.admin != ctx.current_admin {
        return Err(ErrorCode::UnauthorizedAdmin);
    }
    if ctx.admin_state.admin == new_admin {
        return Err(ErrorCode::SameAdminUpdate);
    }
    let old_admin = ctx.admin_state.admin;
    ctx.admin_state.admin = new_admin;
    Ok(AdminUpdated { old_admin, new_admin, updated_by: ctx.current_admin })
}

/// Rotation hands the office over: once a rotation to `new_admin` has been
/// allowed, the administrator check passes for `new_admin` and for nobody
/// else, so the administrator that was replaced is refused from then on.
pub proof fn lemma_rotation_hands_over(before: UpdateAdmin, new_admin: Address, caller: Address)
    requires
        before.error(new_admin) is None,
    ensures
        ({
            let after = AdminState { admin: new_admin, ..before.admin_state };
            &&& admin_error(after, caller) is None <==> caller == new_admin
            &&& admin_error(after, before.current_admin) == Some(ErrorCode::UnauthorizedAdmin)
            &&& !after.admin.is_null()
            &&& after.admin != before.admin_state.admin
        }),
{
}

/// What is refused of a rotation by the administrator on record: the
/// administrator on record itself, with `SameAdminUpdate` unless it is the
/// null identity, and the null identity, with `InvalidNewAdmin`. Any other
/// identity is accepted.
pub proof fn lemma_rotation_by_the_administrator(ctx: UpdateAdmin, new_admin: Address)
    requires
        ctx.admin_state.admin == ctx.current_admin,
    ensures
        new_admin.is_null() ==> ctx.error(new_admin) == Some(ErrorCode::InvalidNewAdmin),
        !new_admin.is_null() && new_admin == ctx.admin_state.admin ==> ctx.error(new_admin) == Some(
            ErrorCode::SameAdminUpdate,
        ),
        !new_admin.is_null() && new_admin != ctx.admin_state.admin ==> ctx.error(new_admin) is None,
{
}

} // verus!
