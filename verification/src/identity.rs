//! Principals: the thirty-two byte addresses that sign operations and hold funds.

use vstd::prelude::*;

verus! {

/// A principal of the ledger, by its address.
#[derive(Clone, Copy, Debug, Hash)]
pub struct Identity {
    pub bytes: [u8; 32],
}

impl View for Identity {
    type V = Seq<u8>;

    open spec fn view(&self) -> Seq<u8> {
        self.bytes@
    }
}

impl Identity {
    /// The address made of the given bytes.
    pub fn new(bytes: [u8; 32]) -> (id: Identity)
        ensures
            id.bytes == bytes,
    {
        Identity { bytes }
    }

    /// The bytes of the address.
    pub fn to_bytes(&self) -> (bytes: [u8; 32])
        ensures
            bytes == self.bytes,
    {
        self.bytes
    }

    /// The address made of the given bytes, where there are thirty-two of them.
    pub fn from_slice(bytes: &[u8]) -> (found: Option<Identity>)
        ensures
            match found {
                Some(id) => id@ == bytes@,
                None => bytes@.len() != 32,
            },
    {
        if bytes.len() != 32 {
            return None;
        }
        let mut copy = [0u8; 32];
        let mut i: usize = 0;
        while i < 32
            invariant
                i <= 32,
                bytes@.len() == 32,
                forall|j: int| 0 <= j < i ==> copy@[j] == bytes@[j],
            decreases 32 - i,
        {
            copy[i] = bytes[i];
            i += 1;
        }
        let id = Identity { bytes: copy };
        proof {
            assert(id@ =~= bytes@);
        }
        Some(id)
    }

    /// Two addresses with the same bytes are the same address.
    pub proof fn lemma_view_injective(a: Identity, b: Identity)
        ensures
            (a@ == b@) <==> (a == b),
    {
        if a@ == b@ {
            assert forall|i: int| 0 <= i < 32 implies a.bytes[i] == b.bytes[i] by {
                assert(a@[i] == b@[i]);
            }
            assert(a.bytes =~= b.bytes);
        }
    }

    /// The bytes of the address, in a vector.
    pub fn to_vec(&self) -> (bytes: Vec<u8>)
        ensures
            bytes@ == self@,
    {
        let mut bytes: Vec<u8> = Vec::new();
        let mut i: usize = 0;
        while i < 32
            invariant
                i <= 32,
                bytes@ == self@.take(i as int),
            decreases 32 - i,
        {
            bytes.push(self.bytes[i]);
            proof {
                assert(bytes@ =~= self@.take(i + 1));
            }
            i += 1;
        }
        proof {
            assert(self@.take(32) =~= self@);
        }
        bytes
    }
}

impl PartialEq for Identity {
    fn eq(&self, other: &Identity) -> (same: bool) {
        let mut i: usize = 0;
        while i < 32
            invariant
                i <= 32,
                forall|j: int| 0 <= j < i ==> self.bytes[j] == other.bytes[j],
            decreases 32 - i,
        {
            if self.bytes[i] != other.bytes[i] {
                return false;
            }
            i += 1;
        }
        proof {
            assert(self.bytes =~= other.bytes);
        }
        true
    }
}

impl Eq for Identity {}

impl vstd::std_specs::cmp::PartialEqSpecImpl for Identity {
    open spec fn obeys_eq_spec() -> bool {
        true
    }

    open spec fn eq_spec(&self, other: &Identity) -> bool {
        *self == *other
    }
}

impl Default for Identity {
    /// The address whose bytes are all zero.
    fn default() -> (id: Identity)
        ensures
            id == Identity::zero(),
            id@ == Seq::new(32, |i: int| 0u8),
    {
        let id = Identity { bytes: [0u8; 32] };
        proof {
            assert(id@ =~= Seq::new(32, |i: int| 0u8));
        }
        id
    }
}

impl Identity {
    /// The address whose bytes are all zero.
    pub open spec fn zero() -> Identity {
        Identity { bytes: vstd::array::spec_array_fill_for_copy_type::<u8, 32>(0u8) }
    }
}

} // verus!
