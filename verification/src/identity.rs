//! Identities: the 32-byte public keys by which players, the operator and the
//! escrow account itself are known.

use vstd::prelude::*;
use vstd::std_specs::cmp::PartialEqSpecImpl;

verus! {

/// A participant, an operator or an account address: 32 raw key bytes.
///
/// Two identities are the same exactly when their bytes agree. The identity
/// whose bytes are all zero is reserved: it marks a seat that nobody has taken.
#[derive(Clone, Copy, Debug, Eq, Hash)]
pub struct Identity {
    pub bytes: [u8; 32],
}

impl View for Identity {
    type V = Seq<u8>;

    open spec fn view(&self) -> Seq<u8> {
        self.bytes@
    }
}

impl Identity {
    /// The reserved identity marks an empty seat.
    pub open spec fn is_unset(self) -> bool {
        forall|i: int| 0 <= i < 32 ==> self.bytes[i] == 0u8
    }

    /// The reserved identity itself.
    pub open spec fn unset() -> Identity {
        Identity { bytes: vstd::array::spec_array_fill_for_copy_type::<u8, 32>(0u8) }
    }

    /// An identity is reserved exactly when it is the reserved identity.
    pub proof fn lemma_unset(id: Identity)
        ensures
            id.is_unset() <==> id == Identity::unset(),
    {
        broadcast use vstd::array::axiom_array_ext_equal;
        broadcast use vstd::array::axiom_spec_array_fill_for_copy_type;

        let zero = Identity::unset();
        assert(forall|i: int| 0 <= i < 32 ==> zero.bytes@[i] == 0u8);
        if id.is_unset() {
            assert(id.bytes =~= zero.bytes);
        }
    }

    /// Identities are determined by their bytes.
    pub proof fn lemma_same_bytes(a: Identity, b: Identity)
        ensures
            (a == b) <==> (a@ == b@),
    {
        broadcast use vstd::array::axiom_array_ext_equal;

        if a@ == b@ {
            assert forall|i: int| 0 <= i < 32 implies a.bytes[i] == b.bytes[i] by {
                assert(a@[i] == b@[i]);
            }
            assert(a.bytes =~= b.bytes);
        }
    }

    /// Wraps raw key bytes.
    pub fn new(bytes: [u8; 32]) -> (id: Identity)
        ensures
            id.bytes == bytes,
    {
        Identity { bytes }
    }

    /// The raw key bytes.
    pub fn to_bytes(&self) -> (bytes: [u8; 32])
        ensures
            bytes == self.bytes,
    {
        self.bytes
    }

    /// Whether this is the reserved identity.
    pub fn is_default(&self) -> (unset: bool)
        ensures
            unset == (*self == Identity::unset()),
    {
        proof {
            Identity::lemma_unset(*self);
        }
        let mut i: usize = 0;
        while i < 32
            invariant
                i <= 32,
                forall|j: int| 0 <= j < i ==> self.bytes[j] == 0u8,
            decreases 32 - i,
        {
            if self.bytes[i] != 0 {
                return false;
            }
            i += 1;
        }
        true
    }
}

impl Default for Identity {
    /// The reserved identity.
    fn default() -> (id: Identity)
        ensures
            id == Identity::unset(),
    {
        let id = Identity { bytes: [0u8; 32] };
        proof {
            Identity::lemma_unset(id);
        }
        id
    }
}

impl PartialEq for Identity {
    fn eq(&self, other: &Identity) -> (same: bool) {
        let mut i: usize = 0;
        while i < 32
            invariant
                i <= 32,
                forall|j: int| 0 <= j < i ==> self.bytes[j] == other.bytes[j],
            decreases 32 - i,
        {
            if self.bytes[i] != other.bytes[i] {
                return false;
            }
            i += 1;
        }
        proof {
            broadcast use vstd::array::axiom_array_ext_equal;

            assert(self.bytes =~= other.bytes);
        }
        true
    }
}

impl PartialEqSpecImpl for Identity {
    open spec fn obeys_eq_spec() -> bool {
        true
    }

    open spec fn eq_spec(&self, other: &Identity) -> bool {
        *self == *other
    }
}

} // verus!
