//! The quadratic extension of the Goldilocks field, `F[x] / (x^2 - 7)`.
//!
//! An element is a pair of limbs `(a0, a1)` that stands for `a0 + a1 * x`.
use crate::goldilocks::{canon, lemma_canon, modulus, Goldilocks};
use vstd::arithmetic::div_mod::{lemma_add_mod_noop, lemma_fundamental_div_mod};
use vstd::prelude::*;

verus! {

/// The constant `c` of the defining relation `x^2 = c`.
pub const NON_RESIDUE: u64 = 7;

/// The degree of the extension over the base field.
pub const DEGREE: usize = 2;

/// Number of bytes that encode one element: two little-endian words.
pub const ELEMENT_BYTES: usize = 16;

/// Why a conversion into an extension element was refused.
#[derive(Clone, Copy, Debug, PartialEq, Eq, Structural)]
pub enum ExtError {
    /// A limb slice whose length is not the degree.
    InvalidLimbCount,
    /// A byte buffer whose length is not a multiple of `ELEMENT_BYTES`.
    MisalignedLength,
}

/// An element `a0 + a1 * x` of the quadratic extension, limbs in that order.
#[derive(Clone, Copy, Debug)]
pub struct GoldilocksExt2(pub [Goldilocks; 2]);

impl View for GoldilocksExt2 {
    type V = (nat, nat);

    /// The two coordinates as field elements.
    open spec fn view(&self) -> (nat, nat) {
        (self.0[0]@, self.0[1]@)
    }
}

/// The element with limbs `a0` and `a1`.
pub open spec fn ext(a0: Goldilocks, a1: Goldilocks) -> GoldilocksExt2 {
    GoldilocksExt2([a0, a1])
}

/// The element that sixteen bytes encode: two little-endian words, taken as
/// they are.
pub open spec fn ext_of_bytes(s: Seq<u8>) -> GoldilocksExt2 {
    ext(
        Goldilocks(vstd::bytes::spec_u64_from_le_bytes(s.subrange(0, 8))),
        Goldilocks(vstd::bytes::spec_u64_from_le_bytes(s.subrange(8, 16))),
    )
}

/// The identifier of the extension.
pub open spec fn ext_name() -> Seq<char> {
    seq!['G', 'o', 'l', 'd', 'i', 'l', 'o', 'c', 'k', 's', 'E', 'x', 't', '2']
}

impl GoldilocksExt2 {
    /// Both limbs are reduced.
    pub open spec fn is_canonical(&self) -> bool {
        self.0[0].is_canonical() && self.0[1].is_canonical()
    }

    /// The limb at `i`, which is 0 or 1.
    pub open spec fn limb(&self, i: int) -> Goldilocks {
        self.0[i]
    }

    /// The sum, limb by limb.
    pub open spec fn plus(self, rhs: GoldilocksExt2) -> GoldilocksExt2 {
        ext(self.0[0].plus(rhs.0[0]), self.0[1].plus(rhs.0[1]))
    }

    /// The difference, limb by limb.
    pub open spec fn minus(self, rhs: GoldilocksExt2) -> GoldilocksExt2 {
        ext(self.0[0].minus(rhs.0[0]), self.0[1].minus(rhs.0[1]))
    }

    /// The product of `a0 + a1 x` and `b0 + b1 x`, with `x^2` replaced by
    /// `NON_RESIDUE`.
    pub open spec fn times(self, rhs: GoldilocksExt2) -> GoldilocksExt2 {
        ext(
            canon(self.0[0]@ * rhs.0[0]@ + NON_RESIDUE as nat * (self.0[1]@ * rhs.0[1]@)),
            canon(self.0[0]@ * rhs.0[1]@ + self.0[1]@ * rhs.0[0]@),
        )
    }

    /// The base scalar `s` added to the constant limb.
    pub open spec fn plus_base(self, s: Goldilocks) -> GoldilocksExt2 {
        ext(self.0[0].plus(s), self.0[1])
    }

    /// The base scalar `s` taken from the constant limb.
    pub open spec fn minus_base(self, s: Goldilocks) -> GoldilocksExt2 {
        ext(self.0[0].minus(s), self.0[1])
    }

    /// Both limbs multiplied by the base scalar `s`.
    pub open spec fn times_base(self, s: Goldilocks) -> GoldilocksExt2 {
        ext(self.0[0].times(s), self.0[1].times(s))
    }

    /// The additive identity.
    pub fn zero() -> (r: GoldilocksExt2)
        ensures
            r == ext(canon(0), canon(0)),
    {
        GoldilocksExt2([Goldilocks::zero(), Goldilocks::zero()])
    }

    /// The multiplicative identity.
    pub fn one() -> (r: GoldilocksExt2)
        ensures
            r == ext(canon(1), canon(0)),
    {
        GoldilocksExt2([Goldilocks::one(), Goldilocks::zero()])
    }

    /// The degree of the extension over the base field.
    pub fn degree() -> (r: usize)
        ensures
            r == 2,
    {
        DEGREE
    }

    /// The identifier of the extension.
    pub fn name() -> (r: &'static str)
        ensures
            r@ == ext_name(),
    {
        let r = "GoldilocksExt2";
        proof {
            reveal_strlit("GoldilocksExt2");
        }
        r
    }

    /// Embeds a base element as `(b, 0)`.
    pub fn from_base(b: &Goldilocks) -> (r: GoldilocksExt2)
        ensures
            r == ext(*b, canon(0)),
    {
        GoldilocksExt2([*b, Goldilocks::zero()])
    }

    /// The two limbs, in order.
    pub fn to_limbs(&self) -> (r: [Goldilocks; 2])
        ensures
            r == self.0,
    {
        self.0
    }

    /// The two limbs as a slice, in order.
    pub fn as_limbs(&self) -> (r: &[Goldilocks])
        ensures
            r@ == self.0@,
    {
        self.0.as_slice()
    }

    /// Builds an element from exactly two limbs, `a0` first.
    pub fn from_limbs(limbs: &[Goldilocks]) -> (r: Result<GoldilocksExt2, ExtError>)
        ensures
            limbs@.len() == 2 ==> r == Ok::<GoldilocksExt2, ExtError>(ext(limbs@[0], limbs@[1])),
            limbs@.len() != 2 ==> r == Err::<GoldilocksExt2, ExtError>(ExtError::InvalidLimbCount),
    {
        if limbs.len() != DEGREE {
            return Err(ExtError::InvalidLimbCount);
        }
        Ok(GoldilocksExt2([limbs[0], limbs[1]]))
    }

    /// Each limb reduced into `[0, MODULUS)`, in limb order.
    pub fn to_canonical_u64_vec(&self) -> (r: Vec<u64>)
        ensures
            r@.len() == 2,
            r@[0] as nat == self.0[0]@,
            r@[1] as nat == self.0[1]@,
    {
        let mut r: Vec<u64> = Vec::new();
        let mut i: usize = 0;
        while i < DEGREE
            invariant
                i <= 2,
                r@.len() == i,
                forall|j: int| 0 <= j < i ==> r@[j] as nat == #[trigger] self.0[j]@,
            decreases 2 - i,
        {
            r.push(self.0[i].to_canonical_u64());
            i = i + 1;
        }
        r
    }

    /// The two words as they are held, without reduction.
    ///
    /// Each word stands for its limb only modulo `MODULUS`: compare the
    /// results of `to_canonical_u64_vec` where a reduced value is meant.
    pub fn as_non_canonical_u64_slice(&self) -> (r: [u64; 2])
        ensures
            r[0] == self.0[0].0,
            r[1] == self.0[1].0,
    {
        [self.0[0].to_noncanonical_u64(), self.0[1].to_noncanonical_u64()]
    }

    /// Reads sixteen bytes as two little-endian words, without reducing them.
    pub fn from_raw_bytes_unchecked(bytes: &[u8]) -> (r: GoldilocksExt2)
        requires
            bytes@.len() == 16,
        ensures
            r == ext_of_bytes(bytes@),
    {
        let lo = vstd::slice::slice_subrange(bytes, 0, 8);
        let hi = vstd::slice::slice_subrange(bytes, 8, 16);
        GoldilocksExt2(
            [Goldilocks::from_raw_bytes_unchecked(lo), Goldilocks::from_raw_bytes_unchecked(hi)],
        )
    }

    /// Splits `bytes` into consecutive sixteen-byte chunks and reads each one
    /// as an element; a length that is not a multiple of sixteen is refused.
    pub fn bytes_to_field_elements(bytes: &[u8]) -> (r: Result<Vec<GoldilocksExt2>, ExtError>)
        ensures
            bytes@.len() % 16 != 0 ==> r == Err::<Vec<GoldilocksExt2>, ExtError>(
                ExtError::MisalignedLength,
            ),
            bytes@.len() % 16 == 0 ==> r is Ok,
            r matches Ok(v) ==> {
                &&& v@.len() == bytes@.len() / 16
                &&& forall|i: int|
                    0 <= i < v@.len() ==> #[trigger] v@[i] == ext_of_bytes(
                        bytes@.subrange(16 * i, 16 * i + 16),
                    )
            },
    {
        if bytes.len() % ELEMENT_BYTES != 0 {
            return Err(ExtError::MisalignedLength);
        }
        let n: usize = bytes.len() / ELEMENT_BYTES;
        let mut v: Vec<GoldilocksExt2> = Vec::new();
        proof {
            lemma_fundamental_div_mod(bytes@.len() as int, 16);
        }
        let mut i: usize = 0;
        while i < n
            invariant
                16 * n == bytes@.len(),
                bytes@.len() <= usize::MAX,
                i <= n,
                v@.len() == i,
                forall|j: int|
                    0 <= j < i ==> #[trigger] v@[j] == ext_of_bytes(
                        bytes@.subrange(16 * j, 16 * j + 16),
                    ),
            decreases n - i,
        {
            proof {
                assert(16 * i + 16 <= 16 * n) by (nonlinear_arith)
                    requires
                        i < n,
                ;
            }
            let start: usize = i * ELEMENT_BYTES;
            let chunk = vstd::slice::slice_subrange(bytes, start, start + ELEMENT_BYTES);
            v.push(GoldilocksExt2::from_raw_bytes_unchecked(chunk));
            i = i + 1;
        }
        Ok(v)
    }
}

impl GoldilocksExt2 {
    /// Multiplies both limbs by the base scalar `rhs`.
    pub fn mul_assign(&mut self, rhs: &Goldilocks)
        ensures
            *final(self) == old(self).times_base(*rhs),
    {
        self.0 = [self.0[0] * *rhs, self.0[1] * *rhs];
    }

    /// Adds the base scalar `rhs` to the constant limb.
    pub fn add_assign(&mut self, rhs: &Goldilocks)
        ensures
            *final(self) == old(self).plus_base(*rhs),
    {
        self.0 = [self.0[0] + *rhs, self.0[1]];
    }

    /// Subtracts the base scalar `rhs` from the constant limb.
    pub fn sub_assign(&mut self, rhs: &Goldilocks)
        ensures
            *final(self) == old(self).minus_base(*rhs),
    {
        self.0 = [self.0[0] - *rhs, self.0[1]];
    }
}

impl core::ops::Mul<Goldilocks> for GoldilocksExt2 {
    type Output = GoldilocksExt2;

    fn mul(self, rhs: Goldilocks) -> (r: GoldilocksExt2) {
        let mut r = self;
        r.mul_assign(&rhs);
        r
    }
}

impl vstd::std_specs::ops::MulSpecImpl<Goldilocks> for GoldilocksExt2 {
    open spec fn obeys_mul_spec() -> bool {
        true
    }

    open spec fn mul_req(self, rhs: Goldilocks) -> bool {
        true
    }

    open spec fn mul_spec(self, rhs: Goldilocks) -> GoldilocksExt2 {
        self.times_base(rhs)
    }
}

impl core::ops::Add<Goldilocks> for GoldilocksExt2 {
    type Output = GoldilocksExt2;

    fn add(self, rhs: Goldilocks) -> (r: GoldilocksExt2) {
        let mut r = self;
        r.add_assign(&rhs);
        r
    }
}

impl vstd::std_specs::ops::AddSpecImpl<Goldilocks> for GoldilocksExt2 {
    open spec fn obeys_add_spec() -> bool {
        true
    }

    open spec fn add_req(self, rhs: Goldilocks) -> bool {
        true
    }

    open spec fn add_spec(self, rhs: Goldilocks) -> GoldilocksExt2 {
        self.plus_base(rhs)
    }
}

impl core::ops::Sub<Goldilocks> for GoldilocksExt2 {
    type Output = GoldilocksExt2;

    fn sub(self, rhs: Goldilocks) -> (r: GoldilocksExt2) {
        let mut r = self;
        r.sub_assign(&rhs);
        r
    }
}

impl vstd::std_specs::ops::SubSpecImpl<Goldilocks> for GoldilocksExt2 {
    open spec fn obeys_sub_spec() -> bool {
        true
    }

    open spec fn sub_req(self, rhs: Goldilocks) -> bool {
        true
    }

    open spec fn sub_spec(self, rhs: Goldilocks) -> GoldilocksExt2 {
        self.minus_base(rhs)
    }
}

impl core::ops::Add for GoldilocksExt2 {
    type Output = GoldilocksExt2;

    fn add(self, rhs: GoldilocksExt2) -> (r: GoldilocksExt2) {
        GoldilocksExt2([self.0[0] + rhs.0[0], self.0[1] + rhs.0[1]])
    }
}

impl vstd::std_specs::ops::AddSpecImpl for GoldilocksExt2 {
    open spec fn obeys_add_spec() -> bool {
        true
    }

    open spec fn add_req(self, rhs: GoldilocksExt2) -> bool {
        true
    }

    open spec fn add_spec(self, rhs: GoldilocksExt2) -> GoldilocksExt2 {
        self.plus(rhs)
    }
}

impl core::ops::Sub for GoldilocksExt2 {
    type Output = GoldilocksExt2;

    fn sub(self, rhs: GoldilocksExt2) -> (r: GoldilocksExt2) {
        GoldilocksExt2([self.0[0] - rhs.0[0], self.0[1] - rhs.0[1]])
    }
}

impl vstd::std_specs::ops::SubSpecImpl for GoldilocksExt2 {
    open spec fn obeys_sub_spec() -> bool {
        true
    }

    open spec fn sub_req(self, rhs: GoldilocksExt2) -> bool {
        true
    }

    open spec fn sub_spec(self, rhs: GoldilocksExt2) -> GoldilocksExt2 {
        self.minus(rhs)
    }
}

/// `(v % p + (k * (w % p)) % p) % p == (v + k * w) % p`, with `p` the prime.
proof fn lemma_sum_scaled_mod(v: nat, k: nat, w: nat)
    ensures
        ((v % modulus()) + (k * (w % modulus())) % modulus()) % modulus() == (v + k * w)
            % modulus(),
{
    let p = modulus() as int;
    vstd::arithmetic::div_mod::lemma_mul_mod_noop_right(k as int, w as int, p);
    lemma_add_mod_noop(v as int, (k * w) as int, p);
}

impl core::ops::Mul for GoldilocksExt2 {
    type Output = GoldilocksExt2;

    /// `(a0 + a1 x)(b0 + b1 x) = (a0 b0 + 7 a1 b1) + (a0 b1 + a1 b0) x`.
    fn mul(self, rhs: GoldilocksExt2) -> (r: GoldilocksExt2) {
        let (a0, a1) = (self.0[0], self.0[1]);
        let (b0, b1) = (rhs.0[0], rhs.0[1]);
        let c = Goldilocks(NON_RESIDUE);
        let r0 = a0 * b0 + c * (a1 * b1);
        let r1 = a0 * b1 + a1 * b0;
        proof {
            let p = modulus();
            vstd::arithmetic::div_mod::lemma_small_mod(7, p);
            lemma_canon(a0@ * b0@);
            lemma_canon(a1@ * b1@);
            lemma_canon(a0@ * b1@);
            lemma_canon(a1@ * b0@);
            lemma_canon(7 * (a1@ * b1@) % p);
            lemma_sum_scaled_mod(a0@ * b0@, 7, a1@ * b1@);
            lemma_sum_scaled_mod(a0@ * b1@, 1, a1@ * b0@);
            vstd::arithmetic::div_mod::lemma_mod_twice((a0@ * b0@ + 7 * (a1@ * b1@)) as int, p as int);
        }
        GoldilocksExt2([r0, r1])
    }
}

impl vstd::std_specs::ops::MulSpecImpl for GoldilocksExt2 {
    open spec fn obeys_mul_spec() -> bool {
        true
    }

    open spec fn mul_req(self, rhs: GoldilocksExt2) -> bool {
        true
    }

    open spec fn mul_spec(self, rhs: GoldilocksExt2) -> GoldilocksExt2 {
        self.times(rhs)
    }
}

impl PartialEq for GoldilocksExt2 {
    /// Limb by limb, each limb compared as a field element.
    fn eq(&self, other: &GoldilocksExt2) -> (r: bool) {
        self.0[0] == other.0[0] && self.0[1] == other.0[1]
    }
}

impl vstd::std_specs::cmp::PartialEqSpecImpl for GoldilocksExt2 {
    open spec fn obeys_eq_spec() -> bool {
        true
    }

    open spec fn eq_spec(&self, other: &GoldilocksExt2) -> bool {
        self@ == other@
    }
}

impl Eq for GoldilocksExt2 {

}

impl<'a> core::ops::Mul<&'a Goldilocks> for GoldilocksExt2 {
    type Output = GoldilocksExt2;

    fn mul(self, rhs: &'a Goldilocks) -> (r: GoldilocksExt2) {
        let mut r = self;
        r.mul_assign(rhs);
        r
    }
}

impl<'a> vstd::std_specs::ops::MulSpecImpl<&'a Goldilocks> for GoldilocksExt2 {
    open spec fn obeys_mul_spec() -> bool {
        true
    }

    open spec fn mul_req(self, rhs: &'a Goldilocks) -> bool {
        true
    }

    open spec fn mul_spec(self, rhs: &'a Goldilocks) -> GoldilocksExt2 {
        self.times_base(*rhs)
    }
}

impl<'a> core::ops::Add<&'a Goldilocks> for GoldilocksExt2 {
    type Output = GoldilocksExt2;

    fn add(self, rhs: &'a Goldilocks) -> (r: GoldilocksExt2) {
        let mut r = self;
        r.add_assign(rhs);
        r
    }
}

impl<'a> vstd::std_specs::ops::AddSpecImpl<&'a Goldilocks> for GoldilocksExt2 {
    open spec fn obeys_add_spec() -> bool {
        true
    }

    open spec fn add_req(self, rhs: &'a Goldilocks) -> bool {
        true
    }

    open spec fn add_spec(self, rhs: &'a Goldilocks) -> GoldilocksExt2 {
        self.plus_base(*rhs)
    }
}

impl<'a> core::ops::Sub<&'a Goldilocks> for GoldilocksExt2 {
    type Output = GoldilocksExt2;

    fn sub(self, rhs: &'a Goldilocks) -> (r: GoldilocksExt2) {
        let mut r = self;
        r.sub_assign(rhs);
        r
    }
}

impl<'a> vstd::std_specs::ops::SubSpecImpl<&'a Goldilocks> for GoldilocksExt2 {
    open spec fn obeys_sub_spec() -> bool {
        true
    }

    open spec fn sub_req(self, rhs: &'a Goldilocks) -> bool {
        true
    }

    open spec fn sub_spec(self, rhs: &'a Goldilocks) -> GoldilocksExt2 {
        self.minus_base(*rhs)
    }
}

impl<'a, 'b> core::ops::Mul<&'b Goldilocks> for &'a GoldilocksExt2 {
    type Output = GoldilocksExt2;

    fn mul(self, rhs: &'b Goldilocks) -> (r: GoldilocksExt2) {
        let mut r = *self;
        r.mul_assign(rhs);
        r
    }
}

impl<'a, 'b> vstd::std_specs::ops::MulSpecImpl<&'b Goldilocks> for &'a GoldilocksExt2 {
    open spec fn obeys_mul_spec() -> bool {
        true
    }

    open spec fn mul_req(self, rhs: &'b Goldilocks) -> bool {
        true
    }

    open spec fn mul_spec(self, rhs: &'b Goldilocks) -> GoldilocksExt2 {
        self.times_base(*rhs)
    }
}

} // verus!
