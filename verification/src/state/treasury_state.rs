//! The treasury record: one for each token type.

use crate::address::Address;
use crate::derivation::treasury_derivation;
use crate::state::account::Account;
use crate::state::token_account::TokenAccount;
use vstd::prelude::*;

verus! {

/// Where the funds of one token type are gathered.
#[derive(Clone, Copy, Debug, PartialEq, Eq)]
pub struct TreasuryState {
    /// The token type.
    pub token_mint: Address,
    /// The treasury's token sub-account.
    pub treasury_ata: Address,
    /// The bump of the record's own address.
    pub bump: u8,
    /// When the record was created.
    pub created_at: i64,
}

impl TreasuryState {
    /// The bytes to reserve for the record: an 8-byte tag, the token type,
    /// the sub-account, the bump, the timestamp, and 32 bytes to spare.
    pub const SPACE: usize = 8 + 32 + 32 + 1 + 8 + 32;

    /// The record is the one that `program` keeps at `address` for its token
    /// type.
    pub open spec fn is_at(&self, address: Address, program: Address) -> bool {
        treasury_derivation(self.token_mint@, program@) == Some((address@, self.bump))
    }

    /// The record at `address` is bound to `sub_account`: the record names
    /// the sub-account, the record's address is the sub-account's authority,
    /// and the sub-account holds the record's token type.
    pub open spec fn binds(&self, address: Address, sub_account: Account<TokenAccount>) -> bool {
        &&& self.treasury_ata == sub_account.address
        &&& sub_account.data.owner == address
        &&& sub_account.data.mint == self.token_mint
    }
}

} // verus!
