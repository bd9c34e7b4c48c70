use vstd::prelude::*;

verus! {

/// Maximum number of bytes in a principal.
pub const MAX_PRINCIPAL_LEN: usize = 29;

/// An Internet Computer principal: up to 29 significant bytes, stored as a
/// length and a zero-padded buffer.
#[derive(Clone, Copy, Debug, PartialEq, Eq, Hash)]
pub struct Principal {
    len: u8,
    bytes: [u8; 29],
}

impl Principal {
    #[verifier::type_invariant]
    spec fn well_formed(self) -> bool {
        &&& self.len <= 29
        &&& forall|i: int| self.len <= i < 29 ==> self.bytes@[i] == 0u8
    }

    /// The significant bytes of the principal.
    pub closed spec fn spec_bytes(self) -> Seq<u8> {
        self.bytes@.subrange(0, self.len as int)
    }
}

impl View for Principal {
    type V = Seq<u8>;

    closed spec fn view(&self) -> Seq<u8> {
        self.spec_bytes()
    }
}

impl Principal {
    /// The principal with the given bytes, if there are at most 29 of them.
    pub fn try_from_slice(slice: &[u8]) -> (r: Option<Principal>)
        ensures
            r is Some <==> slice@.len() <= 29,
            r matches Some(p) ==> p@ == slice@,
    {
        if slice.len() > 29 {
            return None;
        }
        let mut bytes = [0u8; 29];
        let n = slice.len();
        let mut i: usize = 0;
        while i < n
            invariant
                n == slice@.len(),
                n <= 29,
                i <= n,
                forall|j: int| 0 <= j < i ==> bytes@[j] == slice@[j],
                forall|j: int| n <= j < 29 ==> bytes@[j] == 0u8,
            decreases n - i,
        {
            bytes[i] = slice[i];
            i = i + 1;
        }
        let p = Principal { len: n as u8, bytes };
        assert(p.spec_bytes() =~= slice@);
        Some(p)
    }

    /// The principal with the given bytes.
    pub fn from_slice(slice: &[u8]) -> (r: Principal)
        requires
            slice@.len() <= 29,
        ensures
            r@ == slice@,
    {
        match Principal::try_from_slice(slice) {
            Some(p) => p,
            None => {
                proof { assert(false); }
                Principal::anonymous()
            }
        }
    }

    /// The anonymous principal, whose only byte is 4.
    pub fn anonymous() -> (r: Principal)
        ensures
            r@ == seq![4u8],
    {
        let mut bytes = [0u8; 29];
        bytes[0] = 4u8;
        let p = Principal { len: 1, bytes };
        assert(p.spec_bytes() =~= seq![4u8]);
        p
    }

    /// The number of significant bytes.
    pub fn len(&self) -> (r: u8)
        ensures
            r as int == self@.len(),
            r <= 29,
    {
        proof { use_type_invariant(self); }
        self.len
    }

    /// The significant bytes as a vector.
    pub fn as_slice(&self) -> (r: Vec<u8>)
        ensures
            r@ == self@,
            r@.len() <= 29,
    {
        proof { use_type_invariant(self); }
        let mut v: Vec<u8> = Vec::new();
        let n = self.len as usize;
        let mut i: usize = 0;
        while i < n
            invariant
                n == self.len,
                n <= 29,
                i <= n,
                v@ == self.bytes@.subrange(0, i as int),
            decreases n - i,
        {
            v.push(self.bytes[i]);
            assert(v@ =~= self.bytes@.subrange(0, i + 1));
            i = i + 1;
        }
        v
    }

    /// Whether the two principals have the same bytes.
    pub fn equals(&self, other: &Principal) -> (r: bool)
        ensures
            r == (self@ == other@),
    {
        proof {
            use_type_invariant(self);
            use_type_invariant(other);
        }
        if self.len != other.len {
            proof {
                assert(self@.len() != other@.len());
            }
            return false;
        }
        let n = self.len as usize;
        let mut i: usize = 0;
        while i < n
            invariant
                n == self.len,
                n == other.len,
                n <= 29,
                i <= n,
                forall|j: int| 0 <= j < i ==> self.bytes@[j] == other.bytes@[j],
            decreases n - i,
        {
            if self.bytes[i] != other.bytes[i] {
                proof {
                    assert(self@[i as int] != other@[i as int]);
                }
                return false;
            }
            i = i + 1;
        }
        assert(self@ =~= other@);
        true
    }

    /// Whether this is the anonymous principal.
    pub fn is_anonymous(&self) -> (r: bool)
        ensures
            r == (self@ == seq![4u8]),
    {
        let anon = Principal::anonymous();
        self.equals(&anon)
    }
}

} // verus!
