//! The custody record of a user: it binds the user's identifier to the
//! user's vault.

use crate::address::Address;
use crate::derivation::vault_derivation;
use crate::state::account::Account;
use crate::state::token_account::TokenAccount;
use vstd::prelude::*;
use vstd::string::StringSliceAdditionalSpecFns;
use vstd::utf8::encode_utf8;

verus! {

/// The longest user identifier, in bytes.
pub const MAX_USER_ID_LEN: usize = 50;

/// The custody record of one user.
#[derive(Clone, Debug, PartialEq, Eq)]
pub struct UserPDA {
    /// The user's identifier.
    pub user_id: String,
    /// Who created the record.
    pub owner: Address,
    /// The token sub-account of the vault.
    pub token_account: Address,
    /// The bump of the record's own address.
    pub bump: u8,
    /// When the record was created.
    pub created_at: i64,
}

/// A custody record as a value: the identifier as text, the rest as it is.
pub struct UserPDAView {
    pub user_id: Seq<char>,
    pub owner: Address,
    pub token_account: Address,
    pub bump: u8,
    pub created_at: i64,
}

impl View for UserPDA {
    type V = UserPDAView;

    open spec fn view(&self) -> UserPDAView {
        UserPDAView {
            user_id: self.user_id@,
            owner: self.owner,
            token_account: self.token_account,
            bump: self.bump,
            created_at: self.created_at,
        }
    }
}

impl UserPDAView {
    /// The bytes of the identifier.
    pub open spec fn user_id_bytes(&self) -> Seq<u8> {
        encode_utf8(self.user_id)
    }

    /// The identifier is neither empty nor longer than `MAX_USER_ID_LEN`
    /// bytes.
    pub open spec fn has_valid_user_id(&self) -> bool {
        0 < self.user_id_bytes().len() <= MAX_USER_ID_LEN
    }

    /// The record is the one that `program` keeps at `address` for its user:
    /// the address is derived from the identifier, with the record's bump.
    pub open spec fn is_at(&self, address: Address, program: Address) -> bool {
        vault_derivation(self.user_id_bytes(), program@) == Some((address@, self.bump))
    }

    /// The record at `address` is bound to `sub_account`: the record names
    /// the sub-account, and the record's address is the sub-account's
    /// authority.
    pub open spec fn binds(&self, address: Address, sub_account: Account<TokenAccount>) -> bool {
        &&& self.token_account == sub_account.address
        &&& sub_account.data.owner == address
    }
}

impl UserPDA {
    /// The bytes to reserve for the record of `user_id`: an 8-byte tag, the
    /// identifier behind a 4-byte length, the creator, the sub-account, the
    /// bump and the timestamp.
    pub open spec fn spec_space(user_id_len: nat) -> nat {
        8 + 4 + user_id_len + 32 + 32 + 1 + 8
    }

    /// The bytes to reserve for the record of `user_id`.
    pub fn space(user_id: &str) -> (space: usize)
        requires
            UserPDA::spec_space(user_id.spec_bytes().len()) <= usize::MAX,
        ensures
            space == UserPDA::spec_space(user_id.spec_bytes().len()),
    {
        8 + 4 + user_id.as_bytes().len() + 32 + 32 + 1 + 8
    }
}

} // verus!
