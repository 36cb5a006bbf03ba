//! Degree-2 operations derived from the trusted interface.

use vstd::prelude::*;

use crate::chip::{fq2_add, fq2_inv, fq2_mul, fq2_add_of, fq2_inv_of, fq2_mul_of, fq_embed,
    fq_embed_of, fq_neg, fq_neg_of};
use crate::tower::{fp2_wf, fp_wf, Fp2Point};

verus! {

/// The coordinatewise negation of a degree-2 element.
pub open spec fn fq2_neg_val(a: Seq<Seq<u8>>) -> Seq<Seq<u8>> {
    seq![fq_neg_of(a[0]), fq_neg_of(a[1])]
}

/// The degree-2 element a pair of small integers stands for.
pub open spec fn fq2_embed_val(x: u64, y: u64) -> Seq<Seq<u8>> {
    seq![fq_embed_of(x), fq_embed_of(y)]
}

/// The conjugate of a degree-2 element.
pub open spec fn fq2_conj_val(a: Seq<Seq<u8>>) -> Seq<Seq<u8>> {
    seq![a[0], fq_neg_of(a[1])]
}

/// A degree-2 element scaled by a small integer.
pub open spec fn fq2_scalar_val(a: Seq<Seq<u8>>, k: u64) -> Seq<Seq<u8>> {
    fq2_mul_of(a, fq2_embed_val(k, 0))
}

/// A degree-2 quotient under the unsafe-divide discipline: the dividend
/// times the inverse of the divisor, zero inverse standing in for a zero
/// divisor.
pub open spec fn fq2_div_val(a: Seq<Seq<u8>>, b: Seq<Seq<u8>>) -> Seq<Seq<u8>> {
    fq2_mul_of(a, fq2_inv_of(b))
}

pub fn fq2_neg(a: &Fp2Point) -> (r: Fp2Point)
    requires
        fp2_wf(a@),
    ensures
        fp2_wf(r@),
        r@ == fq2_neg_val(a@),
{
    let r = Fp2Point { c0: fq_neg(&a.c0), c1: fq_neg(&a.c1) };
    assert(r@ =~= fq2_neg_val(a@));
    r
}

pub fn fq2_conj(a: &Fp2Point) -> (r: Fp2Point)
    requires
        fp2_wf(a@),
    ensures
        fp2_wf(r@),
        r@ == fq2_conj_val(a@),
{
    let r = Fp2Point { c0: a.c0.dup(), c1: fq_neg(&a.c1) };
    assert(r@ =~= fq2_conj_val(a@));
    r
}

pub fn fq2_embed(x: u64, y: u64) -> (r: Fp2Point)
    ensures
        fp2_wf(r@),
        r@ == fq2_embed_val(x, y),
{
    let r = Fp2Point { c0: fq_embed(x), c1: fq_embed(y) };
    assert(r@ =~= fq2_embed_val(x, y));
    r
}

pub fn fq2_scalar_mul(a: &Fp2Point, k: u64) -> (r: Fp2Point)
    requires
        fp2_wf(a@),
    ensures
        fp2_wf(r@),
        r@ == fq2_scalar_val(a@, k),
{
    let s = fq2_embed(k, 0);
    fq2_mul(a, &s)
}

pub fn fq2_div(a: &Fp2Point, b: &Fp2Point) -> (r: Fp2Point)
    requires
        fp2_wf(a@),
        fp2_wf(b@),
    ensures
        fp2_wf(r@),
        r@ == fq2_div_val(a@, b@),
{
    let inv = fq2_inv(b);
    fq2_mul(a, &inv)
}

} // verus!
