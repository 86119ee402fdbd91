//! An account as an operation sees it: where it lives and what it holds.

use crate::address::Address;
use vstd::prelude::*;

verus! {

/// An account that the caller resolved for an operation: its address, and
/// what was found there.
#[derive(Clone, Debug, PartialEq, Eq)]
pub struct Account<T> {
    pub address: Address,
    pub data: T,
}

impl<T> Account<T> {
    /// The account at `address` that holds `data`.
    pub fn new(address: Address, data: T) -> (account: Account<T>)
        ensures
            account.address == address,
            account.data == data,
    {
        Account { address, data }
    }

    /// The address of the account.
    pub fn key(&self) -> (address: Address)
        ensures
            address == self.address,
    {
        self.address
    }
}

} // verus!
