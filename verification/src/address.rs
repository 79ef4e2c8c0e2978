//! Addresses of ledger resources, held as their node-id bytes.
use vstd::prelude::*;

verus! {

/// The address of a resource on the ledger: the 30 bytes of its node id.
#[derive(Clone, Copy, PartialEq, Eq, Hash, Debug)]
pub struct ResourceAddress {
    bytes: [u8; 30],
}

impl ResourceAddress {
    /// The address with node-id bytes `bytes`.
    pub fn from_bytes(bytes: [u8; 30]) -> (r: ResourceAddress)
        ensures
            r.id() == bytes@,
    {
        ResourceAddress { bytes }
    }

    /// The node-id bytes.
    pub fn to_bytes(&self) -> (r: [u8; 30])
        ensures
            r@ == self.id(),
    {
        self.bytes
    }

    /// The node-id bytes, as a sequence.
    pub closed spec fn id(self) -> Seq<u8> {
        self.bytes@
    }

    /// Addresses with the same bytes are the same address.
    pub proof fn lemma_id_injective(a: ResourceAddress, b: ResourceAddress)
        requires
            a.id() == b.id(),
        ensures
            a == b,
    {
        assert(a.bytes =~= b.bytes);
    }

    /// Whether both are the same address.
    pub fn same_as(&self, other: &ResourceAddress) -> (r: bool)
        ensures
            r == (*self == *other),
    {
        let mut i: usize = 0;
        while i < 30
            invariant
                i <= 30,
                forall|j: int| 0 <= j < i ==> self.bytes@[j] == other.bytes@[j],
            decreases 30 - i,
        {
            if self.bytes[i] != other.bytes[i] {
                return false;
            }
            i = i + 1;
        }
        proof {
            assert(self.bytes@ =~= other.bytes@);
            ResourceAddress::lemma_id_injective(*self, *other);
        }
        true
    }
}

} // verus!
