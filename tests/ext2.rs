use goldilocks::{ExtError, Goldilocks, GoldilocksExt2, DEGREE, MODULUS, NON_RESIDUE};

fn g(x: u64) -> Goldilocks {
    Goldilocks(x)
}

fn e(a0: u64, a1: u64) -> GoldilocksExt2 {
    GoldilocksExt2([g(a0), g(a1)])
}

fn raw_bytes(elems: &[GoldilocksExt2]) -> Vec<u8> {
    let mut out = Vec::new();
    for el in elems {
        for w in el.as_non_canonical_u64_slice() {
            out.extend_from_slice(&w.to_le_bytes());
        }
    }
    out
}

#[test]
fn modulus_is_goldilocks_prime() {
    assert_eq!(MODULUS as u128, (1u128 << 64) - (1u128 << 32) + 1);
}

#[test]
fn scenario_scalar_ops() {
    let x = e(3, 5);
    let s = g(2);
    assert_eq!((x + s).to_limbs(), [g(5), g(5)]);
    assert_eq!((x - s).to_limbs(), [g(1), g(5)]);
    assert_eq!((x * s).to_limbs(), [g(6), g(10)]);
    assert_eq!(GoldilocksExt2::from_base(&g(9)).to_limbs(), [g(9), g(0)]);
}

#[test]
fn reference_operands_match_values() {
    let x = e(3, 5);
    let s = g(2);
    assert_eq!(x + &s, x + s);
    assert_eq!(x - &s, x - s);
    assert_eq!(x * &s, x * s);
    assert_eq!(&x * &s, e(6, 10));
}

#[test]
fn in_place_ops_match_operators() {
    let x = e(11, 13);
    let s = g(4);
    let mut a = x;
    a.add_assign(&s);
    assert_eq!(a, x + s);
    let mut b = x;
    b.sub_assign(&s);
    assert_eq!(b, x - s);
    let mut c = x;
    c.mul_assign(&s);
    assert_eq!(c, x * s);
    assert_eq!(x, e(11, 13));
}

#[test]
fn scalar_sub_wraps_below_zero() {
    let x = e(1, 8);
    let r = x - g(2);
    assert_eq!(r.to_limbs()[0].0, MODULUS - 1);
    assert_eq!(r.to_limbs()[1].0, 8);
}

#[test]
fn scalar_add_wraps_past_modulus() {
    let r = e(MODULUS - 1, 0) + g(3);
    assert_eq!(r.to_limbs()[0].0, 2);
}

#[test]
fn scalar_mul_wraps() {
    let r = e(MODULUS - 1, 2) * g(MODULUS - 1);
    assert_eq!(r.to_canonical_u64_vec(), vec![1, MODULUS - 2]);
}

#[test]
fn field_axioms_on_values() {
    let u = e(MODULUS - 5, 17);
    let v = e(9, MODULUS - 1);
    let w = e(123456789, 987654321);
    assert_eq!((u + v) + w, u + (v + w));
    assert_eq!(u + v, v + u);
    assert_eq!(u + GoldilocksExt2::zero(), u);
    assert_eq!((u + GoldilocksExt2::zero()).to_limbs(), u.to_limbs());
    let s = g(MODULUS - 2);
    assert_eq!((u + v) * s, u * s + v * s);
}

#[test]
fn add_zero_reduces_a_noncanonical_word() {
    let u = e(MODULUS + 3, 4);
    let r = u + GoldilocksExt2::zero();
    assert_eq!(r.to_limbs()[0].0, 3);
    assert_eq!(r, u);
}

#[test]
fn ext_add_and_sub_limbwise() {
    assert_eq!((e(1, 2) + e(3, 4)).to_limbs(), [g(4), g(6)]);
    assert_eq!((e(1, 2) - e(3, 4)).as_non_canonical_u64_slice(), [MODULUS - 2, MODULUS - 2]);
}

#[test]
fn ext_mul_uses_non_residue() {
    assert_eq!(NON_RESIDUE, 7);
    assert_eq!((e(1, 2) * e(3, 4)).to_limbs(), [g(59), g(10)]);
    assert_eq!((e(0, 1) * e(0, 1)).to_limbs(), [g(7), g(0)]);
    assert_eq!(e(5, 6) * GoldilocksExt2::one(), e(5, 6));
}

#[test]
fn embedding_pads_with_zero() {
    let b = g(MODULUS - 1);
    assert_eq!(GoldilocksExt2::from_base(&b).to_limbs(), [b, g(0)]);
    assert_eq!(GoldilocksExt2::from_base(&b).as_non_canonical_u64_slice(), [MODULUS - 1, 0]);
}

#[test]
fn limbs_round_trip() {
    let x = e(42, MODULUS - 7);
    assert_eq!(GoldilocksExt2::from_limbs(&x.to_limbs()), Ok(x));
    assert_eq!(x.as_limbs(), &[g(42), g(MODULUS - 7)]);
    assert_eq!(GoldilocksExt2::from_limbs(x.as_limbs()).unwrap().to_limbs(), x.to_limbs());
}

#[test]
fn from_limbs_rejects_wrong_count() {
    assert_eq!(GoldilocksExt2::from_limbs(&[g(1)]), Err(ExtError::InvalidLimbCount));
    assert_eq!(GoldilocksExt2::from_limbs(&[g(1), g(2), g(3)]), Err(ExtError::InvalidLimbCount));
    assert_eq!(GoldilocksExt2::from_limbs(&[]), Err(ExtError::InvalidLimbCount));
}

#[test]
fn canonical_vec_reduces_each_limb() {
    let x = e(MODULUS + 3, 9);
    assert_eq!(x.to_canonical_u64_vec(), vec![3, 9]);
    assert_eq!(x.as_non_canonical_u64_slice(), [MODULUS + 3, 9]);
}

#[test]
fn canonical_vec_idempotent() {
    let x = e(MODULUS + 10, u64::MAX);
    let v = x.to_canonical_u64_vec();
    let y = GoldilocksExt2::from_limbs(&[g(v[0]), g(v[1])]).unwrap();
    assert_eq!(y.to_canonical_u64_vec(), v);
    assert_eq!(v, vec![10, u64::MAX - MODULUS]);
}

#[test]
fn bytes_two_elements() {
    let a = e(3, 5);
    let b = e(MODULUS - 1, 0x0102_0304_0506_0708);
    let bytes = raw_bytes(&[a, b]);
    assert_eq!(bytes.len(), 32);
    let v = GoldilocksExt2::bytes_to_field_elements(&bytes).unwrap();
    assert_eq!(v.len(), 2);
    assert_eq!(v[0].to_limbs(), a.to_limbs());
    assert_eq!(v[1].to_limbs(), b.to_limbs());
}

#[test]
fn bytes_one_element() {
    let a = e(0x1122_3344_5566_7788, 1);
    let v = GoldilocksExt2::bytes_to_field_elements(&raw_bytes(&[a])).unwrap();
    assert_eq!(v, vec![a]);
}

#[test]
fn bytes_little_endian_layout() {
    let mut bytes = vec![0u8; 16];
    bytes[0] = 1;
    bytes[1] = 2;
    bytes[8] = 0xff;
    let v = GoldilocksExt2::bytes_to_field_elements(&bytes).unwrap();
    assert_eq!(v[0].as_non_canonical_u64_slice(), [0x0201, 0xff]);
}

#[test]
fn bytes_keep_noncanonical_words() {
    let bytes = [0xffu8; 16];
    let x = GoldilocksExt2::from_raw_bytes_unchecked(&bytes);
    assert_eq!(x.as_non_canonical_u64_slice(), [u64::MAX, u64::MAX]);
    assert_eq!(x.to_canonical_u64_vec(), vec![u64::MAX - MODULUS, u64::MAX - MODULUS]);
}

#[test]
fn bytes_empty_and_misaligned() {
    assert_eq!(GoldilocksExt2::bytes_to_field_elements(&[]), Ok(vec![]));
    assert_eq!(GoldilocksExt2::bytes_to_field_elements(&[0u8; 15]), Err(ExtError::MisalignedLength));
    assert_eq!(GoldilocksExt2::bytes_to_field_elements(&[0u8; 17]), Err(ExtError::MisalignedLength));
}

#[test]
fn degree_and_name() {
    assert_eq!(GoldilocksExt2::degree(), 2);
    assert_eq!(DEGREE, 2);
    assert_eq!(GoldilocksExt2::name(), "GoldilocksExt2");
    assert!(!GoldilocksExt2::name().is_empty());
}

#[test]
fn base_field_ops() {
    assert_eq!((g(MODULUS - 1) + g(1)).0, 0);
    assert_eq!((g(1) - g(2)).0, MODULUS - 1);
    assert_eq!((g(MODULUS - 1) * g(MODULUS - 1)).0, 1);
    assert_eq!((g(1 << 32) * g(1 << 32)).0, (1u64 << 32) - 1);
    assert_eq!(Goldilocks::from_u64(u64::MAX).0, u64::MAX - MODULUS);
    assert_eq!(Goldilocks::one().to_canonical_u64(), 1);
    assert_eq!(Goldilocks::zero(), g(MODULUS));
    assert_ne!(g(1), g(2));
}

#[test]
fn base_from_raw_bytes() {
    let b = 0x8877_6655_4433_2211u64.to_le_bytes();
    assert_eq!(Goldilocks::from_raw_bytes_unchecked(&b).to_noncanonical_u64(), 0x8877_6655_4433_2211);
}
