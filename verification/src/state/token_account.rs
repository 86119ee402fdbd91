//! Token sub-accounts. The token ledger owns them; the program reads them and
//! asks the ledger for transfers.

use crate::address::Address;
use vstd::prelude::*;

verus! {

/// What the program reads of a token sub-account.
#[derive(Clone, Copy, Debug, PartialEq, Eq)]
pub struct TokenAccount {
    /// The token type that the sub-account holds.
    pub mint: Address,
    /// The authority that may move funds out of the sub-account.
    pub owner: Address,
    /// The balance.
    pub amount: u64,
}

} // verus!
