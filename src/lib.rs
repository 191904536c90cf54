//! Fixed-width integers behind one generic interface, and a wrapper whose
//! shifts are defined for every shift amount.
use vstd::prelude::*;

mod correct;
mod laws;
mod num;

verus! {

pub use crate::correct::{shl_corrected, shr_corrected, Correct, SHIFT_LIMIT};
pub use crate::laws::{
    lemma_abs_of_negation, lemma_eq_laws, lemma_forwarding_homomorphism, lemma_shift_below_limit,
    lemma_shift_past_limit_is_zero, lemma_sign_trichotomy,
};
pub use crate::num::{Num, ShiftAmount, SignedNum};

} // verus!
