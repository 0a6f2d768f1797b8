//! 256-bit unsigned words and 32-byte hashes.
use vstd::prelude::*;

verus! {

/// The radix of one limb.
pub open spec fn limb_base() -> nat {
    0x1_0000_0000_0000_0000
}

/// The largest value a `U256` holds: 2^256 - 1.
pub open spec fn u256_max() -> nat {
    (limb_base() * limb_base() * limb_base() * limb_base() - 1) as nat
}

pub open spec fn min_nat(a: nat, b: nat) -> nat {
    if a <= b { a } else { b }
}

/// A 256-bit unsigned integer held as four little-endian 64-bit limbs.
#[derive(Clone, Copy, Debug, PartialEq, Eq, Structural, Hash, Default)]
pub struct U256 {
    pub l0: u64,
    pub l1: u64,
    pub l2: u64,
    pub l3: u64,
}

impl U256 {
    /// The number this word stands for.
    pub open spec fn value(self) -> nat {
        self.l0 as nat + limb_base() * (self.l1 as nat + limb_base() * (
        self.l2 as nat + limb_base() * (self.l3 as nat)))
    }

    pub open spec fn spec_zero() -> U256 {
        U256 { l0: 0, l1: 0, l2: 0, l3: 0 }
    }

    pub fn zero() -> (r: U256)
        ensures
            r.value() == 0,
            r == (U256 { l0: 0, l1: 0, l2: 0, l3: 0 }),
    {
        U256 { l0: 0, l1: 0, l2: 0, l3: 0 }
    }

    pub fn from_u64(x: u64) -> (r: U256)
        ensures
            r.value() == x,
            r == (U256 { l0: x, l1: 0, l2: 0, l3: 0 }),
    {
        U256 { l0: x, l1: 0, l2: 0, l3: 0 }
    }

    pub fn from_u128(x: u128) -> (r: U256)
        ensures
            r.value() == x,
    {
        let lo = (x % 0x1_0000_0000_0000_0000u128) as u64;
        let hi = (x / 0x1_0000_0000_0000_0000u128) as u64;
        U256 { l0: lo, l1: hi, l2: 0, l3: 0 }
    }

    pub fn is_zero(&self) -> (r: bool)
        ensures
            r == (self.value() == 0),
    {
        proof {
            lemma_value_zero(*self);
        }
        self.l0 == 0 && self.l1 == 0 && self.l2 == 0 && self.l3 == 0
    }

    /// Relies on `primitive_types::U256::saturating_add`: the sum, or `U256::MAX` on overflow.
    #[verifier::external_body]
    pub(crate) fn saturating_add(self, other: U256) -> (r: U256)
        ensures
            r.value() == min_nat(self.value() + other.value(), u256_max()),
    {
        let r = primitive_types::U256([self.l0, self.l1, self.l2, self.l3]).saturating_add(primitive_types::U256([other.l0, other.l1, other.l2, other.l3]));
        U256 { l0: r.0[0], l1: r.0[1], l2: r.0[2], l3: r.0[3] }
    }

    /// Relies on `primitive_types::U256::saturating_sub`: the difference, or zero on underflow.
    #[verifier::external_body]
    pub(crate) fn saturating_sub(self, other: U256) -> (r: U256)
        ensures
            r.value() == (if self.value() >= other.value() { (self.value() - other.value()) as nat } else { 0 }),
    {
        let r = primitive_types::U256([self.l0, self.l1, self.l2, self.l3]).saturating_sub(primitive_types::U256([other.l0, other.l1, other.l2, other.l3]));
        U256 { l0: r.0[0], l1: r.0[1], l2: r.0[2], l3: r.0[3] }
    }

    /// Relies on `primitive_types::U256::saturating_mul`: the product, or `U256::MAX` on overflow.
    #[verifier::external_body]
    pub(crate) fn saturating_mul(self, other: U256) -> (r: U256)
        ensures
            r.value() == min_nat(self.value() * other.value(), u256_max()),
    {
        let r = primitive_types::U256([self.l0, self.l1, self.l2, self.l3]).saturating_mul(primitive_types::U256([other.l0, other.l1, other.l2, other.l3]));
        U256 { l0: r.0[0], l1: r.0[1], l2: r.0[2], l3: r.0[3] }
    }

    /// Relies on `primitive_types::U256`'s `/`: the truncated quotient (it panics on a zero divisor).
    #[verifier::external_body]
    pub(crate) fn div(self, other: U256) -> (r: U256)
        requires
            other.value() != 0,
        ensures
            r.value() == self.value() / other.value(),
    {
        let r = primitive_types::U256([self.l0, self.l1, self.l2, self.l3]) / primitive_types::U256([other.l0, other.l1, other.l2, other.l3]);
        U256 { l0: r.0[0], l1: r.0[1], l2: r.0[2], l3: r.0[3] }
    }

    /// Relies on `primitive_types::U256`'s `>`: the numeric order of the two words.
    #[verifier::external_body]
    pub(crate) fn gt(self, other: U256) -> (r: bool)
        ensures
            r == (self.value() > other.value()),
    {
        primitive_types::U256([self.l0, self.l1, self.l2, self.l3]) > primitive_types::U256([other.l0, other.l1, other.l2, other.l3])
    }
}

/// A word is zero exactly when all its limbs are.
pub proof fn lemma_value_zero(a: U256)
    ensures
        (a.value() == 0) == (a.l0 == 0 && a.l1 == 0 && a.l2 == 0 && a.l3 == 0),
{
    let b = limb_base();
    let x0 = a.l0 as nat;
    let x1 = a.l1 as nat;
    let x2 = a.l2 as nat;
    let x3 = a.l3 as nat;
    if a.value() == 0 {
        assert(x0 == 0 && x1 + b * (x2 + b * x3) == 0) by (nonlinear_arith)
            requires x0 + b * (x1 + b * (x2 + b * x3)) == 0, b > 0;
        assert(x1 == 0 && x2 + b * x3 == 0) by (nonlinear_arith)
            requires x1 + b * (x2 + b * x3) == 0, b > 0;
        assert(x2 == 0 && x3 == 0) by (nonlinear_arith)
            requires x2 + b * x3 == 0, b > 0;
    }
}

/// A 32-byte hash.
#[derive(Clone, Copy, Debug, Hash)]
pub struct B256 {
    pub bytes: [u8; 32],
}

impl PartialEq for B256 {
    fn eq(&self, other: &B256) -> (r: bool) {
        let mut i: usize = 0;
        while i < 32
            invariant
                0 <= i <= 32,
                forall|j: int| 0 <= j < i ==> self.bytes@[j] == other.bytes@[j],
            decreases 32 - i,
        {
            if self.bytes[i] != other.bytes[i] {
                return false;
            }
            i = i + 1;
        }
        assert(self.bytes@ =~= other.bytes@);
        true
    }
}

impl vstd::std_specs::cmp::PartialEqSpecImpl for B256 {
    open spec fn obeys_eq_spec() -> bool {
        true
    }

    open spec fn eq_spec(&self, other: &B256) -> bool {
        self.bytes@ == other.bytes@
    }
}

impl Eq for B256 {
}

impl B256 {
    pub fn zero() -> (r: B256)
        ensures
            r.bytes@ == Seq::new(32, |i: int| 0u8),
    {
        let r = B256 { bytes: [0u8; 32] };
        assert(r.bytes@ =~= Seq::new(32, |i: int| 0u8));
        r
    }
}

} // verus!

verus! {

impl From<u64> for U256 {
    fn from(x: u64) -> (r: U256) {
        U256::from_u64(x)
    }
}

impl vstd::std_specs::convert::FromSpecImpl<u64> for U256 {
    open spec fn obeys_from_spec() -> bool {
        true
    }

    open spec fn from_spec(x: u64) -> U256 {
        U256 { l0: x, l1: 0, l2: 0, l3: 0 }
    }
}

impl From<[u8; 32]> for B256 {
    fn from(bytes: [u8; 32]) -> (r: B256) {
        B256 { bytes }
    }
}

impl vstd::std_specs::convert::FromSpecImpl<[u8; 32]> for B256 {
    open spec fn obeys_from_spec() -> bool {
        true
    }

    open spec fn from_spec(bytes: [u8; 32]) -> B256 {
        B256 { bytes }
    }
}

/// A 20-byte account address.
#[derive(Clone, Copy, Debug, Hash)]
pub struct Address {
    pub bytes: [u8; 20],
}

} // verus!
