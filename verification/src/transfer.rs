//! Orders to the token ledger. The program moves no tokens itself: it says
//! which transfer the ledger is to make, and on whose authority.

use crate::address::Address;
use vstd::prelude::*;

verus! {

/// One transfer for the token ledger to make.
#[derive(Clone, Copy, Debug, PartialEq, Eq)]
pub struct TransferOrder {
    /// The sub-account to take from.
    pub from: Address,
    /// The sub-account to give to.
    pub to: Address,
    /// On whose authority the transfer is made.
    pub authority: Address,
    /// How much to move: all of it or nothing.
    pub amount: u64,
}

} // verus!
