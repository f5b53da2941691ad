//! The Goldilocks prime field, of order `2^64 - 2^32 + 1`.
use vstd::arithmetic::div_mod::{lemma_add_mod_noop, lemma_mul_mod_noop_general, lemma_mod_bound, lemma_small_mod};
use vstd::prelude::*;

verus! {

/// The prime `2^64 - 2^32 + 1`.
pub const MODULUS: u64 = 0xFFFF_FFFF_0000_0001;

/// The prime as a mathematical integer.
pub open spec fn modulus() -> nat {
    MODULUS as nat
}

/// An element of the prime field of order `MODULUS`.
///
/// The word is usually kept below the modulus, but bytes decoded without
/// reduction may leave it anywhere in `u64`; the element it stands for is
/// always the word reduced modulo `MODULUS`.
#[derive(Clone, Copy, Debug)]
pub struct Goldilocks(pub u64);

impl View for Goldilocks {
    type V = nat;

    /// The field element, in `[0, MODULUS)`.
    open spec fn view(&self) -> nat {
        (self.0 as nat) % modulus()
    }
}

/// The canonical element that stands for the integer `v`.
pub open spec fn canon(v: nat) -> Goldilocks {
    Goldilocks((v % modulus()) as u64)
}

impl Goldilocks {
    /// The word is already reduced.
    pub open spec fn is_canonical(&self) -> bool {
        self.0 < MODULUS
    }

    /// The field sum.
    pub open spec fn plus(self, rhs: Goldilocks) -> Goldilocks {
        canon(self@ + rhs@)
    }

    /// The field difference, written with `MODULUS` added so that it stays a
    /// `nat`.
    pub open spec fn minus(self, rhs: Goldilocks) -> Goldilocks {
        canon((self@ + modulus() - rhs@) as nat)
    }

    /// The field product.
    pub open spec fn times(self, rhs: Goldilocks) -> Goldilocks {
        canon(self@ * rhs@)
    }

    /// The additive identity.
    pub fn zero() -> (r: Goldilocks)
        ensures
            r == canon(0),
    {
        Goldilocks(0)
    }

    /// The multiplicative identity.
    pub fn one() -> (r: Goldilocks)
        ensures
            r == canon(1),
    {
        proof {
            lemma_small_mod(1, modulus());
        }
        Goldilocks(1)
    }

    /// The element that stands for `x`, reduced.
    pub fn from_u64(x: u64) -> (r: Goldilocks)
        ensures
            r == canon(x as nat),
    {
        Goldilocks(x % MODULUS)
    }

    /// The element as its representative in `[0, MODULUS)`.
    pub fn to_canonical_u64(&self) -> (r: u64)
        ensures
            r as nat == self@,
            r < MODULUS,
    {
        self.0 % MODULUS
    }

    /// The word as it is held, without reduction.
    pub fn to_noncanonical_u64(&self) -> (r: u64)
        ensures
            r == self.0,
    {
        self.0
    }

    /// Reads eight little-endian bytes as the word of an element, without
    /// reducing it.
    pub fn from_raw_bytes_unchecked(bytes: &[u8]) -> (r: Goldilocks)
        requires
            bytes@.len() == 8,
        ensures
            r.0 == vstd::bytes::spec_u64_from_le_bytes(bytes@),
    {
        Goldilocks(vstd::bytes::u64_from_le_bytes(bytes))
    }
}

/// An element built by `canon` is reduced and stands for `v` modulo the prime.
pub proof fn lemma_canon(v: nat)
    ensures
        canon(v).is_canonical(),
        canon(v)@ == v % modulus(),
{
    lemma_mod_bound(v as int, modulus() as int);
}

impl PartialEq for Goldilocks {
    /// Two elements are equal when they stand for the same field element.
    fn eq(&self, other: &Goldilocks) -> (r: bool) {
        self.to_canonical_u64() == other.to_canonical_u64()
    }
}

impl vstd::std_specs::cmp::PartialEqSpecImpl for Goldilocks {
    open spec fn obeys_eq_spec() -> bool {
        true
    }

    open spec fn eq_spec(&self, other: &Goldilocks) -> bool {
        self@ == other@
    }
}

impl Eq for Goldilocks {

}

impl core::ops::Add for Goldilocks {
    type Output = Goldilocks;

    fn add(self, rhs: Goldilocks) -> (r: Goldilocks) {
        let s: u128 = self.0 as u128 + rhs.0 as u128;
        proof {
            lemma_add_mod_noop(self.0 as int, rhs.0 as int, modulus() as int);
        }
        Goldilocks((s % (MODULUS as u128)) as u64)
    }
}

impl vstd::std_specs::ops::AddSpecImpl for Goldilocks {
    open spec fn obeys_add_spec() -> bool {
        true
    }

    open spec fn add_req(self, rhs: Goldilocks) -> bool {
        true
    }

    open spec fn add_spec(self, rhs: Goldilocks) -> Goldilocks {
        self.plus(rhs)
    }
}

impl core::ops::Sub for Goldilocks {
    type Output = Goldilocks;

    fn sub(self, rhs: Goldilocks) -> (r: Goldilocks) {
        let a: u64 = self.0 % MODULUS;
        let b: u64 = rhs.0 % MODULUS;
        let s: u128 = a as u128 + MODULUS as u128 - b as u128;
        Goldilocks((s % (MODULUS as u128)) as u64)
    }
}

impl vstd::std_specs::ops::SubSpecImpl for Goldilocks {
    open spec fn obeys_sub_spec() -> bool {
        true
    }

    open spec fn sub_req(self, rhs: Goldilocks) -> bool {
        true
    }

    open spec fn sub_spec(self, rhs: Goldilocks) -> Goldilocks {
        self.minus(rhs)
    }
}

impl core::ops::Mul for Goldilocks {
    type Output = Goldilocks;

    fn mul(self, rhs: Goldilocks) -> (r: Goldilocks) {
        let a: u128 = self.0 as u128;
        let b: u128 = rhs.0 as u128;
        proof {
            assert(a * b <= 0xFFFF_FFFF_FFFF_FFFF * 0xFFFF_FFFF_FFFF_FFFF) by (nonlinear_arith)
                requires
                    a <= 0xFFFF_FFFF_FFFF_FFFFu128,
                    b <= 0xFFFF_FFFF_FFFF_FFFFu128,
            ;
            lemma_mul_mod_noop_general(self.0 as int, rhs.0 as int, modulus() as int);
        }
        let p: u128 = a * b;
        Goldilocks((p % (MODULUS as u128)) as u64)
    }
}

impl vstd::std_specs::ops::MulSpecImpl for Goldilocks {
    open spec fn obeys_mul_spec() -> bool {
        true
    }

    open spec fn mul_req(self, rhs: Goldilocks) -> bool {
        true
    }

    open spec fn mul_spec(self, rhs: Goldilocks) -> Goldilocks {
        self.times(rhs)
    }
}

} // verus!
