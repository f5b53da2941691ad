//! Algebraic and conversion laws of the extension field.
use crate::ext2::{ext, ext_name, ext_of_bytes, GoldilocksExt2};
use crate::goldilocks::{canon, lemma_canon, modulus, Goldilocks};
use vstd::arithmetic::div_mod::{lemma_add_mod_noop, lemma_mod_twice, lemma_mul_mod_noop_left};
use vstd::arithmetic::mul::lemma_mul_is_distributive_add_other_way;
use vstd::prelude::*;

verus! {

/// The element `a + b` reduces to the same canonical element as
/// `(a mod p) + b`.
proof fn lemma_canon_absorbs(a: nat, b: nat)
    ensures
        canon(canon(a)@ + b) == canon(a + b),
{
    lemma_canon(a);
    lemma_add_mod_noop(a as int, b as int, modulus() as int);
    lemma_mod_twice(a as int, modulus() as int);
}

/// Base field addition is associative.
proof fn lemma_base_add_assoc(a: Goldilocks, b: Goldilocks, c: Goldilocks)
    ensures
        a.plus(b).plus(c) == a.plus(b.plus(c)),
{
    lemma_canon_absorbs(a@ + b@, c@);
    lemma_canon_absorbs(b@ + c@, a@);
    assert(a@ + b@ + c@ == b@ + c@ + a@);
}

/// Addition of extension elements is associative.
pub proof fn lemma_add_assoc(u: GoldilocksExt2, v: GoldilocksExt2, w: GoldilocksExt2)
    ensures
        u.plus(v).plus(w) == u.plus(v.plus(w)),
{
    lemma_base_add_assoc(u.0[0], v.0[0], w.0[0]);
    lemma_base_add_assoc(u.0[1], v.0[1], w.0[1]);
}

/// Addition of extension elements is commutative.
pub proof fn lemma_add_comm(u: GoldilocksExt2, v: GoldilocksExt2)
    ensures
        u.plus(v) == v.plus(u),
{
    assert(u.0[0]@ + v.0[0]@ == v.0[0]@ + u.0[0]@);
    assert(u.0[1]@ + v.0[1]@ == v.0[1]@ + u.0[1]@);
}

/// Adding zero leaves the field element unchanged; on reduced limbs it
/// leaves the limbs themselves unchanged.
pub proof fn lemma_add_zero(u: GoldilocksExt2)
    ensures
        u.plus(ext(canon(0), canon(0)))@ == u@,
        u.is_canonical() ==> u.plus(ext(canon(0), canon(0))) == u,
{
    lemma_canon(0);
    lemma_canon(u.0[0]@);
    lemma_canon(u.0[1]@);
    vstd::arithmetic::div_mod::lemma_small_mod(0, modulus());
    lemma_mod_twice(u.0[0].0 as int, modulus() as int);
    lemma_mod_twice(u.0[1].0 as int, modulus() as int);
    if u.is_canonical() {
        vstd::arithmetic::div_mod::lemma_small_mod(u.0[0].0 as nat, modulus());
        vstd::arithmetic::div_mod::lemma_small_mod(u.0[1].0 as nat, modulus());
        assert(u.plus(ext(canon(0), canon(0))).0 =~= u.0);
    }
}

/// Base field multiplication distributes over addition.
proof fn lemma_base_distributes(a: Goldilocks, b: Goldilocks, s: Goldilocks)
    ensures
        a.plus(b).times(s) == a.times(s).plus(b.times(s)),
{
    let p = modulus() as int;
    lemma_canon(a@ + b@);
    lemma_canon(a@ * s@);
    lemma_canon(b@ * s@);
    lemma_mul_mod_noop_left((a@ + b@) as int, s@ as int, p);
    lemma_mul_is_distributive_add_other_way(s@ as int, a@ as int, b@ as int);
    lemma_add_mod_noop((a@ * s@) as int, (b@ * s@) as int, p);
}

/// Multiplication by a base scalar distributes over addition:
/// `(u + v) * s == u * s + v * s`.
pub proof fn lemma_scalar_mul_distributes(u: GoldilocksExt2, v: GoldilocksExt2, s: Goldilocks)
    ensures
        u.plus(v).times_base(s) == u.times_base(s).plus(v.times_base(s)),
{
    lemma_base_distributes(u.0[0], v.0[0], s);
    lemma_base_distributes(u.0[1], v.0[1], s);
}

/// Embedding a base element gives the limbs `[b, 0]`.
pub proof fn lemma_embedding(b: Goldilocks)
    ensures
        ext(b, canon(0)).0@ == seq![b, canon(0)],
        canon(0)@ == 0,
        canon(0).0 == 0,
{
    lemma_canon(0);
    assert(ext(b, canon(0)).0@ =~= seq![b, canon(0)]);
}

/// Rebuilding an element from its two limbs gives the element back.
pub proof fn lemma_limbs_round_trip(e: GoldilocksExt2)
    ensures
        e.0@.len() == 2,
        ext(e.0@[0], e.0@[1]) == e,
{
    assert(ext(e.0@[0], e.0@[1]).0 =~= e.0);
}

/// Reducing the limbs, rebuilding an element from the reduced words and
/// reducing again gives the same words.
pub proof fn lemma_canonical_idempotent(e: GoldilocksExt2)
    ensures
        ({
            let c = ext(Goldilocks(e.0[0]@ as u64), Goldilocks(e.0[1]@ as u64));
            &&& c.is_canonical()
            &&& c.0[0]@ == e.0[0]@
            &&& c.0[1]@ == e.0[1]@
        }),
{
    let p = modulus();
    vstd::arithmetic::div_mod::lemma_mod_bound(e.0[0].0 as int, p as int);
    vstd::arithmetic::div_mod::lemma_mod_bound(e.0[1].0 as int, p as int);
    vstd::arithmetic::div_mod::lemma_small_mod(e.0[0]@, p);
    vstd::arithmetic::div_mod::lemma_small_mod(e.0[1]@, p);
}

/// Adding a base scalar changes the constant limb alone, by that scalar.
pub proof fn lemma_scalar_add_constant_term(e: GoldilocksExt2, s: Goldilocks)
    ensures
        e.plus_base(s).0[0] == e.0[0].plus(s),
        e.plus_base(s).0[1] == e.0[1],
        e.minus_base(s).0[0] == e.0[0].minus(s),
        e.minus_base(s).0[1] == e.0[1],
{
}

/// Multiplying by a base scalar multiplies both limbs by it.
pub proof fn lemma_scalar_mul_limbs(e: GoldilocksExt2, s: Goldilocks)
    ensures
        e.times_base(s).0@ == seq![e.0[0].times(s), e.0[1].times(s)],
{
    assert(e.times_base(s).0@ =~= seq![e.0[0].times(s), e.0[1].times(s)]);
}

/// The sixteen bytes that hold an element's two words, little-endian.
pub open spec fn ext_raw_bytes(e: GoldilocksExt2) -> Seq<u8> {
    vstd::bytes::spec_u64_to_le_bytes(e.0[0].0) + vstd::bytes::spec_u64_to_le_bytes(e.0[1].0)
}

/// Decoding the bytes of an element's words gives the element back.
pub proof fn lemma_bytes_round_trip(e: GoldilocksExt2)
    ensures
        ext_raw_bytes(e).len() == 16,
        ext_of_bytes(ext_raw_bytes(e)) == e,
{
    vstd::bytes::lemma_auto_spec_u64_to_from_le_bytes();
    let lo = vstd::bytes::spec_u64_to_le_bytes(e.0[0].0);
    let hi = vstd::bytes::spec_u64_to_le_bytes(e.0[1].0);
    assert(ext_raw_bytes(e).subrange(0, 8) =~= lo);
    assert(ext_raw_bytes(e).subrange(8, 16) =~= hi);
    assert(ext_of_bytes(ext_raw_bytes(e)).0 =~= e.0);
}

/// A buffer made of the bytes of two elements splits into exactly those two
/// elements, and one made of the bytes of one element into that element.
pub proof fn lemma_byte_chunking(e1: GoldilocksExt2, e2: GoldilocksExt2)
    ensures
        ({
            let b = ext_raw_bytes(e1) + ext_raw_bytes(e2);
            &&& b.len() == 32
            &&& b.len() / 16 == 2
            &&& ext_of_bytes(b.subrange(0, 16)) == e1
            &&& ext_of_bytes(b.subrange(16, 32)) == e2
        }),
        ext_raw_bytes(e1).len() / 16 == 1,
        ext_of_bytes(ext_raw_bytes(e1).subrange(0, 16)) == e1,
{
    lemma_bytes_round_trip(e1);
    lemma_bytes_round_trip(e2);
    let b = ext_raw_bytes(e1) + ext_raw_bytes(e2);
    assert(b.subrange(0, 16) =~= ext_raw_bytes(e1));
    assert(b.subrange(16, 32) =~= ext_raw_bytes(e2));
    assert(ext_raw_bytes(e1).subrange(0, 16) =~= ext_raw_bytes(e1));
}

/// The identifier is not empty.
pub proof fn lemma_name_nonempty()
    ensures
        ext_name().len() > 0,
{
}

} // verus!
