//! Full-domain cyclotomic squaring on the permuted layout.
//!
//! The element is split into three degree-4 sub-elements (pairs of
//! degree-2 coefficients), each squared Karatsuba-style, and the results
//! are recombined by doubling plus add-back of the pre-square value, one
//! component twisted by the non-residue.

use vstd::prelude::*;

use crate::chip::{fq2_add, fq2_add_of, fq2_mul, fq2_mul_of, fq2_sub, fq2_sub_of};
use crate::fp2::fq2_embed;
use crate::fp12::{assemble, assemble12, g_of, slot, xi_val, XI0};
use crate::tower::{fp12_wf, fp2_wf, Fp12Chip, Fp12Point, Fp2Point};

verus! {

/// First coefficient of a degree-4 square: `non_residue·b^2 + a^2`.
pub open spec fn fp4_sq_c0(a: Seq<Seq<u8>>, b: Seq<Seq<u8>>) -> Seq<Seq<u8>> {
    fq2_add_of(fq2_mul_of(fq2_mul_of(b, b), xi_val()), fq2_mul_of(a, a))
}

/// Second coefficient of a degree-4 square: `(a + b)^2 - a^2 - b^2`.
pub open spec fn fp4_sq_c1(a: Seq<Seq<u8>>, b: Seq<Seq<u8>>) -> Seq<Seq<u8>> {
    fq2_sub_of(
        fq2_sub_of(fq2_mul_of(fq2_add_of(a, b), fq2_add_of(a, b)), fq2_mul_of(a, a)),
        fq2_mul_of(b, b),
    )
}

/// The recombination step `2·(t - z) + t` applied to each output
/// coefficient, with `t - z` a sum or difference as the chain prescribes.
pub open spec fn double_and_fold(t: Seq<Seq<u8>>, s: Seq<Seq<u8>>) -> Seq<Seq<u8>> {
    fq2_add_of(fq2_add_of(s, s), t)
}

/// The full-domain cyclotomic square in tower layout.
pub open spec fn cyc_square_bls_val(f: Seq<Seq<u8>>) -> Seq<Seq<u8>> {
    let z0 = g_of(f, 0);
    let z2 = g_of(f, 1);
    let z4 = g_of(f, 2);
    let z1 = g_of(f, 3);
    let z3 = g_of(f, 4);
    let z5 = g_of(f, 5);
    let t0 = fp4_sq_c0(z0, z1);
    let t1 = fp4_sq_c1(z0, z1);
    let nz0 = double_and_fold(t0, fq2_sub_of(t0, z0));
    let nz1 = double_and_fold(t1, fq2_add_of(t1, z1));
    let u0 = fp4_sq_c0(z2, z3);
    let u1 = fp4_sq_c1(z2, z3);
    let u2 = fp4_sq_c0(z4, z5);
    let u3 = fp4_sq_c1(z4, z5);
    let nz4 = double_and_fold(u0, fq2_sub_of(u0, z4));
    let nz5 = double_and_fold(u1, fq2_add_of(u1, z5));
    let twisted = fq2_mul_of(u3, xi_val());
    let nz2 = double_and_fold(twisted, fq2_add_of(twisted, z2));
    let nz3 = double_and_fold(u2, fq2_sub_of(u2, z3));
    assemble12(seq![nz0, nz2, nz4, nz1, nz3, nz5])
}

impl Fp12Chip {
    /// One Karatsuba-style degree-4 squaring.
    fn fp4_square(&self, a: &Fp2Point, b: &Fp2Point) -> (r: (Fp2Point, Fp2Point))
        requires
            fp2_wf(a@),
            fp2_wf(b@),
        ensures
            fp2_wf(r.0@),
            fp2_wf(r.1@),
            r.0@ == fp4_sq_c0(a@, b@),
            r.1@ == fp4_sq_c1(a@, b@),
    {
        let xi = fq2_embed(XI0, 1);
        let t0 = fq2_mul(a, a);
        let t1 = fq2_mul(b, b);
        let t2 = fq2_mul(&t1, &xi);
        let c0 = fq2_add(&t2, &t0);
        let s = fq2_add(a, b);
        let sq = fq2_mul(&s, &s);
        let c1 = fq2_sub(&fq2_sub(&sq, &t0), &t1);
        (c0, c1)
    }

    /// Squaring on the full 12-coefficient representation, used inside the
    /// curve-parameter exponentiation where compression would not pay off.
    pub fn cyclotomic_square_bls(&self, f: &Fp12Point) -> (r: Fp12Point)
        requires
            fp12_wf(f@),
        ensures
            fp12_wf(r@),
            r@ == cyc_square_bls_val(f@),
    {
        let z0 = slot(f, 0);
        let z2 = slot(f, 1);
        let z4 = slot(f, 2);
        let z1 = slot(f, 3);
        let z3 = slot(f, 4);
        let z5 = slot(f, 5);
        let xi = fq2_embed(XI0, 1);

        let (t0, t1) = self.fp4_square(&z0, &z1);
        let nz0 = fq2_add(&{
            let s = fq2_sub(&t0, &z0);
            fq2_add(&s, &s)
        }, &t0);
        let nz1 = fq2_add(&{
            let s = fq2_add(&t1, &z1);
            fq2_add(&s, &s)
        }, &t1);

        let (u0, u1) = self.fp4_square(&z2, &z3);
        let (u2, u3) = self.fp4_square(&z4, &z5);

        let nz4 = fq2_add(&{
            let s = fq2_sub(&u0, &z4);
            fq2_add(&s, &s)
        }, &u0);
        let nz5 = fq2_add(&{
            let s = fq2_add(&u1, &z5);
            fq2_add(&s, &s)
        }, &u1);

        let twisted = fq2_mul(&u3, &xi);
        let nz2 = fq2_add(&{
            let s = fq2_add(&twisted, &z2);
            fq2_add(&s, &s)
        }, &twisted);
        let nz3 = fq2_add(&{
            let s = fq2_sub(&u2, &z3);
            fq2_add(&s, &s)
        }, &u2);

        assemble(nz0, nz2, nz4, nz1, nz3, nz5)
    }
}

} // verus!
