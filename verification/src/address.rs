//! Addresses and identities: 32 opaque bytes.

use vstd::prelude::*;
use vstd::std_specs::cmp::PartialEqSpecImpl;

verus! {

broadcast use vstd::array::group_array_axioms;

/// A 32-byte account address or identity.
///
/// Its view is the sequence of its bytes. Two addresses are equal exactly when
/// their bytes are.
#[derive(Clone, Copy, Debug)]
pub struct Address {
    pub bytes: [u8; 32],
}

impl View for Address {
    type V = Seq<u8>;

    open spec fn view(&self) -> Seq<u8> {
        self.bytes@
    }
}

impl PartialEq for Address {
    fn eq(&self, other: &Address) -> (r: bool) {
        let mut i: usize = 0;
        while i < 32
            invariant
                i <= 32,
                forall|j: int| 0 <= j < i ==> self.bytes[j] == other.bytes[j],
            decreases 32 - i,
        {
            if self.bytes[i] != other.bytes[i] {
                return false;
            }
            i = i + 1;
        }
        assert(self.bytes =~= other.bytes);
        true
    }
}

impl PartialEqSpecImpl for Address {
    open spec fn obeys_eq_spec() -> bool {
        true
    }

    open spec fn eq_spec(&self, other: &Address) -> bool {
        *self == *other
    }
}

impl Eq for Address {

}

impl Default for Address {
    /// The null identity: thirty-two zero bytes.
    fn default() -> (r: Address)
        ensures
            r.is_null(),
    {
        let r = Address { bytes: [0u8;32] };
        assert(r@ =~= Seq::new(32, |i: int| 0u8));
        r
    }
}

impl Address {
    /// Whether this is the null identity, the address of thirty-two zero
    /// bytes, which no party can hold.
    pub open spec fn is_null(&self) -> bool {
        self@ == Seq::new(32, |i: int| 0u8)
    }

    /// The address with the given bytes.
    pub fn new(bytes: [u8; 32]) -> (r: Address)
        ensures
            r.bytes == bytes,
            r@ == bytes@,
    {
        Address { bytes }
    }

    /// The bytes of the address.
    pub fn to_bytes(&self) -> (r: [u8; 32])
        ensures
            r == self.bytes,
    {
        self.bytes
    }

    /// Tells whether this is the null identity.
    pub fn is_default(&self) -> (r: bool)
        ensures
            r == self.is_null(),
    {
        let null = Address::default();
        proof {
            lemma_address_view_injective(*self, null);
        }
        *self == null
    }
}

/// An address is determined by its view.
pub proof fn lemma_address_view_injective(a: Address, b: Address)
    ensures
        a@ == b@ <==> a == b,
        a@.len() == 32,
{
    if a@ == b@ {
        assert(a.bytes =~= b.bytes);
    }
}

} // verus!
