//! The administrator record: one for the whole program.

use crate::address::Address;
use crate::derivation::admin_derivation;
use vstd::prelude::*;

verus! {

/// Who administers the program.
#[derive(Clone, Copy, Debug, PartialEq, Eq)]
pub struct AdminState {
    /// The current administrator.
    pub admin: Address,
    /// The bump of the record's own address.
    pub bump: u8,
    /// When the record was created.
    pub created_at: i64,
}

impl AdminState {
    /// The bytes to reserve for the record: an 8-byte tag, the administrator,
    /// the bump, the timestamp, and 32 bytes to spare.
    pub const SPACE: usize = 8 + 32 + 1 + 8 + 32;

    /// The record is the one that `program` keeps at `address`: the address
    /// is derived from the record's seeds, with the record's bump.
    pub open spec fn is_at(&self, address: Address, program: Address) -> bool {
        admin_derivation(program@) == Some((address@, self.bump))
    }
}

} // verus!
