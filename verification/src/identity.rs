//! Identities: fixed-size public values that act both as address
//! components and as authorization principals.

use vstd::prelude::*;

verus! {

/// A 32-byte public identity value. The all-zero value is a sentinel
/// meaning "no owner yet": a stored record whose owner field is still
/// the sentinel has never been claimed by a real identity.
#[derive(Clone, Copy, Debug)]
pub struct Identity {
    pub bytes: [u8; 32],
}

impl View for Identity {
    type V = Seq<u8>;

    open spec fn view(&self) -> Seq<u8> {
        self.bytes@
    }
}

/// The sentinel: every byte zero.
pub open spec fn is_default_id(id: Seq<u8>) -> bool {
    id.len() == 32 && forall|k: int| 0 <= k < 32 ==> id[k] == 0u8
}

impl Identity {
    pub open spec fn wf(self) -> bool {
        self@.len() == 32
    }

    /// Build an identity from its raw bytes.
    pub fn new(bytes: [u8; 32]) -> (r: Identity)
        ensures
            r@ == bytes@,
    {
        Identity { bytes }
    }

    /// The sentinel identity, used as the "unclaimed" owner value.
    pub fn default_id() -> (r: Identity)
        ensures
            is_default_id(r@),
    {
        let bytes = [0u8; 32];
        let r = Identity { bytes };
        proof {
            assert(forall|k: int| 0 <= k < 32 ==> r@[k] == 0u8);
        }
        r
    }

    /// Byte-for-byte equality of two identities.
    pub fn same_as(&self, other: &Identity) -> (r: bool)
        ensures
            r == (self@ == other@),
    {
        let mut k: usize = 0;
        while k < 32
            invariant
                k <= 32,
                forall|j: int| 0 <= j < k ==> self@[j] == other@[j],
            decreases 32 - k,
        {
            if self.bytes[k] != other.bytes[k] {
                proof {
                    assert(self@[k as int] != other@[k as int]);
                }
                return false;
            }
            k += 1;
        }
        proof {
            assert(self@ =~= other@);
        }
        true
    }

    /// Whether this identity is the sentinel.
    pub fn is_default(&self) -> (r: bool)
        ensures
            r == is_default_id(self@),
    {
        let mut k: usize = 0;
        while k < 32
            invariant
                k <= 32,
                forall|j: int| 0 <= j < k ==> self@[j] == 0u8,
            decreases 32 - k,
        {
            if self.bytes[k] != 0 {
                proof {
                    assert(self@[k as int] != 0u8);
                }
                return false;
            }
            k += 1;
        }
        true
    }
}

} // verus!
