use vstd::prelude::*;

verus! {

/// A 32-byte account identity (a public key).
#[derive(Clone, Copy, Debug)]
pub struct Identity {
    pub bytes: [u8; 32],
}

impl Identity {
    /// Builds an identity from its 32 bytes.
    pub fn new(bytes: [u8; 32]) -> (id: Identity)
        ensures
            id.bytes == bytes,
    {
        Identity { bytes }
    }

    /// Byte-wise equality of two identities.
    pub fn same_as(&self, other: &Identity) -> (r: bool)
        ensures
            r == (self.bytes@ == other.bytes@),
    {
        let mut i: usize = 0;
        while i < 32
            invariant
                i <= 32,
                self.bytes@.len() == 32,
                other.bytes@.len() == 32,
                forall|j: int| 0 <= j < i ==> self.bytes@[j] == other.bytes@[j],
            decreases 32 - i,
        {
            if self.bytes[i] != other.bytes[i] {
                return false;
            }
            i = i + 1;
        }
        assert(self.bytes@ =~= other.bytes@);
        true
    }
}

impl Identity {
    /// Whether two identities hold the same bytes.
    pub open spec fn matches_key(self, other: Identity) -> bool {
        self.bytes@ == other.bytes@
    }
}

} // verus!
