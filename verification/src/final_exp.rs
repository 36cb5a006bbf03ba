//! The final exponentiation `a ↦ a^((q^12 - 1) / r)` (up to the known
//! cofactor of the published chain), split into the standard easy part and
//! the fixed hard-part addition chain for the BLS12-381 parameter.
//!
//! The chain of intermediate values is a fixed topology: every step is
//! transcribed literally, and the contract mirrors it step for step.

use vstd::prelude::*;

use crate::fp12::{fq12_conj_val, fq12_div_val, fq12_mul, fq12_mul_val};
use crate::frobenius::frob12_val;
use crate::pow::{cyc_pow_bls_val, BLS_X};
use crate::square_bls::cyc_square_bls_val;
use crate::tower::{fp12_wf, Fp12Chip, Fp12Point};

verus! {

/// The easy part: `t2 = f3·f2` with `f2 = conj(a)/a` and `f3` its second
/// Frobenius power.
pub open spec fn easy_part_val(a: Seq<Seq<u8>>) -> Seq<Seq<u8>> {
    let f1 = fq12_conj_val(a);
    let f2 = fq12_div_val(f1, a);
    let f3 = frob12_val(f2, 2);
    fq12_mul_val(f3, f2)
}

/// The hard part: the fixed addition chain of curve-parameter
/// exponentiations, squarings, conjugations and Frobenius twists applied
/// to the easy-part output `t2`.
pub open spec fn hard_part_val(t2: Seq<Seq<u8>>) -> Seq<Seq<u8>> {
    let t1 = fq12_conj_val(cyc_square_bls_val(t2));
    let t3 = cyc_pow_bls_val(t2, BLS_X);
    let t4 = cyc_square_bls_val(t3);
    let t5 = fq12_mul_val(t1, t3);
    let t1 = cyc_pow_bls_val(t5, BLS_X);
    let t0 = cyc_pow_bls_val(t1, BLS_X);
    let t6 = cyc_pow_bls_val(t0, BLS_X);
    let t6 = fq12_mul_val(t6, t4);
    let t4 = cyc_pow_bls_val(t6, BLS_X);
    let t5 = fq12_conj_val(t5);
    let t4 = fq12_mul_val(t4, t5);
    let t4 = fq12_mul_val(t4, t2);
    let t5 = fq12_conj_val(t2);
    let t1 = fq12_mul_val(t1, t2);
    let t1 = frob12_val(t1, 3);
    let t6 = fq12_mul_val(t6, t5);
    let t6 = frob12_val(t6, 1);
    let t3 = fq12_mul_val(t3, t0);
    let t3 = frob12_val(t3, 2);
    let t3 = fq12_mul_val(t3, t1);
    let t3 = fq12_mul_val(t3, t6);
    fq12_mul_val(t3, t4)
}

/// The whole final exponentiation.
pub open spec fn final_exp_val(a: Seq<Seq<u8>>) -> Seq<Seq<u8>> {
    hard_part_val(easy_part_val(a))
}

impl Fp12Chip {
    /// The final exponentiation of the optimal-ate pairing.
    pub fn final_exp(&self, a: Fp12Point) -> (r: Fp12Point)
        requires
            fp12_wf(a@),
        ensures
            fp12_wf(r@),
            r@ == final_exp_val(a@),
    {
        let f1 = self.conjugate(&a);
        let f2 = self.devide(&f1, &a);
        let f3 = self.frobenius_map(&f2, 2);
        let t2 = fq12_mul(&f3, &f2);

        let t1 = {
            let tv = self.cyclotomic_square_bls(&t2);
            self.conjugate(&tv)
        };

        let t3 = self.cyclotomic_pow_bls(t2.dup(), BLS_X);

        let t4 = self.cyclotomic_square_bls(&t3);
        let t5 = fq12_mul(&t1, &t3);
        let t1 = self.cyclotomic_pow_bls(t5.dup(), BLS_X);
        let t0 = self.cyclotomic_pow_bls(t1.dup(), BLS_X);
        let t6 = self.cyclotomic_pow_bls(t0.dup(), BLS_X);
        let t6 = fq12_mul(&t6, &t4);
        let t4 = self.cyclotomic_pow_bls(t6.dup(), BLS_X);
        let t5 = self.conjugate(&t5);
        let t4 = fq12_mul(&t4, &t5);
        let t4 = fq12_mul(&t4, &t2);
        let t5 = self.conjugate(&t2);
        let t1 = fq12_mul(&t1, &t2);

        let t1 = self.frobenius_map(&t1, 3);
        let t6 = fq12_mul(&t6, &t5);
        let t6 = self.frobenius_map(&t6, 1);
        let t3 = fq12_mul(&t3, &t0);
        let t3 = self.frobenius_map(&t3, 2);
        let t3 = fq12_mul(&t3, &t1);
        let t3 = fq12_mul(&t3, &t6);
        fq12_mul(&t3, &t4)
    }
}

} // verus!
