//! Arithmetic in the Goldilocks prime field and in its quadratic extension
//! modulo `x^2 - 7`.
mod ext2;
mod goldilocks;
pub mod laws;

pub use ext2::{
    ext, ext_name, ext_of_bytes, ExtError, GoldilocksExt2, DEGREE, ELEMENT_BYTES, NON_RESIDUE,
};
pub use goldilocks::{canon, lemma_canon, modulus, Goldilocks, MODULUS};
