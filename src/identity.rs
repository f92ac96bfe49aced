use vstd::prelude::*;

verus! {

/// A 256-bit identity: an account key, as its 32 bytes.
#[derive(Clone, Copy, Debug, Eq, Hash)]
pub struct Identity {
    pub bytes: [u8; 32],
}

impl View for Identity {
    type V = Seq<u8>;

    open spec fn view(&self) -> Seq<u8> {
        self.bytes@
    }
}

impl PartialEq for Identity {
    fn eq(&self, other: &Identity) -> (r: bool)
        ensures
            r == (self.bytes == other.bytes),
    {
        let mut i: usize = 0;
        while i < 32
            invariant
                i <= 32,
                forall|j: int| 0 <= j < i ==> self.bytes[j] == other.bytes[j],
            decreases 32 - i,
        {
            if self.bytes[i] != other.bytes[i] {
                return false;
            }
            i = i + 1;
        }
        assert(self.bytes =~= other.bytes);
        true
    }
}

impl vstd::std_specs::cmp::PartialEqSpecImpl for Identity {
    open spec fn obeys_eq_spec() -> bool {
        true
    }

    open spec fn eq_spec(&self, other: &Identity) -> bool {
        self.bytes == other.bytes
    }
}

impl Identity {
    pub fn new(bytes: [u8; 32]) -> (r: Identity)
        ensures
            r.bytes == bytes,
    {
        Identity { bytes }
    }

    /// The all-zero identity.
    pub fn zero() -> (r: Identity)
        ensures
            r@ == Seq::new(32, |i: int| 0u8),
    {
        let r = Identity { bytes: [0u8; 32] };
        assert(r@ =~= Seq::new(32, |i: int| 0u8));
        r
    }

    /// Two identities are equal exactly when their bytes are.
    pub proof fn lemma_view_injective(a: Identity, b: Identity)
        ensures
            a@ == b@ <==> a == b,
    {
        if a@ == b@ {
            assert forall|i: int| 0 <= i < 32 implies a.bytes[i] == b.bytes[i] by {
                assert(a@[i] == b@[i]);
            }
            assert(a.bytes =~= b.bytes);
        }
    }

    pub fn to_bytes(&self) -> (r: [u8; 32])
        ensures
            r == self.bytes,
    {
        self.bytes
    }
}

/// Who carries a package: nobody yet, or the carrier bound to an authority.
#[derive(Clone, Copy, Debug, PartialEq, Eq)]
pub enum Assignment {
    Unassigned,
    Assigned(Identity),
}

impl Assignment {
    pub fn is_assigned_to(&self, who: Identity) -> (r: bool)
        ensures
            r == (*self == Assignment::Assigned(who)),
    {
        match self {
            Assignment::Unassigned => false,
            Assignment::Assigned(id) => *id == who,
        }
    }
}

} // verus!
