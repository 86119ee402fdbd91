//! The address of a user's vault.

use crate::address::Address;
use crate::derivation::{derive_vault, derived_address, vault_derivation};
use crate::errors::ErrorCode;
use vstd::prelude::*;
use vstd::utf8::encode_utf8;

verus! {

/// What the query reads: the program under which vaults are derived.
#[derive(Clone, Copy, Debug, PartialEq, Eq)]
pub struct FindUserPdaAddress {
    pub program_id: Address,
}

/// The address of the vault of `user_id`.
///
/// The address is a function of the identifier and of the program alone: the
/// same identifier gives the same address, whoever asks and whenever. Where
/// no address can be derived from the identifier, the query fails with
/// `InvalidPDA`.
pub fn find_user_pda_address(ctx: &FindUserPdaAddress, user_id: &str) -> (result: Result<Address, ErrorCode>)
    ensures
        match result {
            Ok(address) => {
                &&& vault_derivation(encode_utf8(user_id@), ctx.program_id@) matches Some(derived)
                &&& address@ == derived.0
            },
            Err(error) => {
                &&& error == ErrorCode::InvalidPDA
                &&& vault_derivation(encode_utf8(user_id@), ctx.program_id@) is None
            },
        },
{
    derived_address(derive_vault(user_id, &ctx.program_id))
}

} // verus!
