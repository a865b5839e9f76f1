mod laws;
mod scalar;
mod vec3;

pub use laws::{
    lemma_add_commutative, lemma_add_zero, lemma_eq_equivalence, lemma_mul_commutative,
    lemma_mul_one, lemma_zero_detection,
};
pub use scalar::{distance, Scalar};
pub use vec3::Vec3;
