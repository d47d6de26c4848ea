use vstd::prelude::*;

verus! {

/// A 20-byte account identity. The all-zero identity is the null address.
#[derive(Clone, Copy, Debug)]
pub struct Address {
    pub bytes: [u8; 20],
}

impl Address {
    pub open spec fn is_null(self) -> bool {
        forall|i: int| 0 <= i < 20 ==> self.bytes@[i] == 0
    }

    /// The identity whose twenty bytes all equal `b`.
    pub fn repeat_byte(b: u8) -> (r: Address)
        ensures
            forall|i: int| 0 <= i < 20 ==> r.bytes@[i] == b,
    {
        Address { bytes: [b; 20] }
    }

    /// The null identity.
    pub fn zero() -> (r: Address)
        ensures
            r.is_null(),
    {
        Address::repeat_byte(0)
    }

    /// Whether this is the null identity.
    pub fn is_zero(&self) -> (r: bool)
        ensures
            r == self.is_null(),
    {
        let mut i: usize = 0;
        while i < 20
            invariant
                0 <= i <= 20,
                forall|j: int| 0 <= j < i ==> self.bytes@[j] == 0,
            decreases 20 - i,
        {
            if self.bytes[i] != 0 {
                return false;
            }
            i = i + 1;
        }
        true
    }
}

impl PartialEq for Address {
    fn eq(&self, o: &Address) -> (r: bool)
        ensures
            r == (*self == *o),
    {
        let mut i: usize = 0;
        while i < 20
            invariant
                0 <= i <= 20,
                forall|j: int| 0 <= j < i ==> self.bytes@[j] == o.bytes@[j],
            decreases 20 - i,
        {
            if self.bytes[i] != o.bytes[i] {
                return false;
            }
            i = i + 1;
        }
        assert(self.bytes =~= o.bytes);
        true
    }
}

impl vstd::std_specs::cmp::PartialEqSpecImpl for Address {
    open spec fn obeys_eq_spec() -> bool {
        true
    }

    open spec fn eq_spec(&self, o: &Address) -> bool {
        *self == *o
    }
}

impl Eq for Address {
}

pub open spec fn limb_base() -> int {
    0x1_0000_0000_0000_0000
}

/// An unsigned 256-bit integer held as four 64-bit limbs, least significant first.
#[derive(Clone, Copy, Debug, PartialEq, Eq, Structural)]
pub struct U256 {
    pub limb0: u64,
    pub limb1: u64,
    pub limb2: u64,
    pub limb3: u64,
}

impl U256 {
    /// The number this value stands for.
    pub open spec fn value(self) -> nat {
        (self.limb0 + limb_base() * (self.limb1 + limb_base() * (self.limb2 + limb_base()
            * self.limb3))) as nat
    }

    pub open spec fn of_u64(v: u64) -> U256 {
        U256 { limb0: v, limb1: 0, limb2: 0, limb3: 0 }
    }

    pub proof fn lemma_fits_u64(self)
        ensures
            (self.value() < limb_base()) == (self.limb1 == 0 && self.limb2 == 0 && self.limb3
                == 0),
            self.limb1 == 0 && self.limb2 == 0 && self.limb3 == 0 ==> self.value()
                == self.limb0,
    {
        let b = limb_base();
        let hi = self.limb1 + b * (self.limb2 + b * self.limb3);
        assert(self.limb2 + b * self.limb3 >= 0) by (nonlinear_arith)
            requires
                self.limb2 >= 0,
                self.limb3 >= 0,
                b > 0,
        ;
        assert(hi >= 0) by (nonlinear_arith)
            requires
                hi == self.limb1 + b * (self.limb2 + b * self.limb3),
                self.limb1 >= 0,
                self.limb2 + b * self.limb3 >= 0,
                b > 0,
        ;
        assert((hi == 0) == (self.limb1 == 0 && self.limb2 == 0 && self.limb3 == 0))
            by (nonlinear_arith)
            requires
                hi == self.limb1 + b * (self.limb2 + b * self.limb3),
                self.limb1 >= 0,
                self.limb2 >= 0,
                self.limb3 >= 0,
                b > 0,
        ;
        assert((self.limb0 + b * hi < b) == (hi == 0)) by (nonlinear_arith)
            requires
                hi >= 0,
                0 <= self.limb0 < b,
        ;
    }

    /// The value as a `u64`, where it fits in one.
    pub fn to_u64(&self) -> (r: Option<u64>)
        ensures
            r == (if self.value() < limb_base() {
                Some(self.value() as u64)
            } else {
                None::<u64>
            }),
    {
        proof {
            self.lemma_fits_u64();
        }
        if self.limb1 == 0 && self.limb2 == 0 && self.limb3 == 0 {
            Some(self.limb0)
        } else {
            None
        }
    }
}

impl From<u64> for U256 {
    fn from(v: u64) -> (r: U256)
        ensures
            r == U256::of_u64(v),
            r.value() == v,
    {
        U256 { limb0: v, limb1: 0, limb2: 0, limb3: 0 }
    }
}

impl vstd::std_specs::convert::FromSpecImpl<u64> for U256 {
    open spec fn obeys_from_spec() -> bool {
        true
    }

    open spec fn from_spec(v: u64) -> U256 {
        U256::of_u64(v)
    }
}

} // verus!
