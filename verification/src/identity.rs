use vstd::prelude::*;
use vstd::std_specs::cmp::PartialEqSpecImpl;

verus! {

/// Number of bytes in an [`Identity`].
pub const IDENTITY_BYTES: usize = 32;

/// The identity of a party or of a record on the ledger: 32 bytes.
///
/// Its view is the sequence of those bytes, and two identities are equal
/// exactly when their views are.
#[derive(Clone, Copy, Debug, Eq)]
pub struct Identity {
    pub bytes: [u8; 32],
}

impl View for Identity {
    type V = Seq<u8>;

    open spec fn view(&self) -> Seq<u8> {
        self.bytes@
    }
}

impl PartialEq for Identity {
    fn eq(&self, other: &Identity) -> (same: bool) {
        let mut i: usize = 0;
        while i < 32
            invariant
                i <= 32,
                forall|k: int| 0 <= k < i ==> self.bytes@[k] == other.bytes@[k],
            decreases 32 - i,
        {
            if self.bytes[i] != other.bytes[i] {
                return false;
            }
            i += 1;
        }
        assert(self.bytes@ =~= other.bytes@);
        true
    }
}

impl PartialEqSpecImpl for Identity {
    open spec fn obeys_eq_spec() -> bool {
        true
    }

    open spec fn eq_spec(&self, other: &Identity) -> bool {
        self@ == other@
    }
}

impl Identity {
    /// The identity made of the given bytes.
    pub fn new(bytes: [u8; 32]) -> (id: Identity)
        ensures
            id.bytes == bytes,
            id@ == bytes@,
    {
        Identity { bytes }
    }

    /// The bytes of this identity.
    pub fn to_bytes(&self) -> (bytes: [u8; 32])
        ensures
            bytes == self.bytes,
            bytes@ == self@,
    {
        self.bytes
    }

    /// Identities with the same bytes are the same identity.
    pub proof fn lemma_same_bytes(self, other: Identity)
        ensures
            self@ == other@ <==> self == other,
    {
        if self@ == other@ {
            assert forall|i: int| 0 <= i < 32 implies self.bytes[i] == other.bytes[i] by {
                assert(self.bytes[i] == self@[i]);
                assert(other.bytes[i] == other@[i]);
            }
            assert(self.bytes =~= other.bytes);
        }
    }
}

} // verus!
