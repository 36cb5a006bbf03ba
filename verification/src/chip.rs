//! The trusted capability interface to the outside curve arithmetic.
//!
//! Every function here is a thin wrapper around one operation of the
//! outside curve library; its contract names the value the operation
//! returns, and everything built on top of these wrappers is verified
//! against those names.

use vstd::prelude::*;

use crate::tower::{fp2_wf, fp_wf, fq2_one_val, fq2_zero_val, fq_one_val, fq_zero_val, be_nat,
    q_nat, Fp, Fp2Point};
use halo2curves::bls12381::{Fq, Fq2, FROBENIUS_COEFF_FQ12_C1};
use halo2curves::ff::Field;

verus! {

/// The canonical encoding of the additive inverse of a base element.
pub uninterp spec fn fq_neg_of(a: Seq<u8>) -> Seq<u8>;

/// The canonical encoding of the base element a small integer stands for.
pub uninterp spec fn fq_embed_of(x: u64) -> Seq<u8>;

/// The sum of two degree-2 elements.
pub uninterp spec fn fq2_add_of(a: Seq<Seq<u8>>, b: Seq<Seq<u8>>) -> Seq<Seq<u8>>;

/// The difference of two degree-2 elements.
pub uninterp spec fn fq2_sub_of(a: Seq<Seq<u8>>, b: Seq<Seq<u8>>) -> Seq<Seq<u8>>;

/// The product of two degree-2 elements.
pub uninterp spec fn fq2_mul_of(a: Seq<Seq<u8>>, b: Seq<Seq<u8>>) -> Seq<Seq<u8>>;

/// The multiplicative inverse of a degree-2 element (zero for zero).
pub uninterp spec fn fq2_inv_of(a: Seq<Seq<u8>>) -> Seq<Seq<u8>>;

/// The Frobenius coefficient table entry for `power`, raised to the `i`th
/// power.
pub uninterp spec fn frob_coeff_of(power: int, i: int) -> Seq<Seq<u8>>;

/// Relies on the outside library's base-field negation: the result is the
/// canonical encoding of `-a`, a function of the argument alone.
#[verifier::external_body]
pub fn fq_neg(a: &Fp) -> (r: Fp)
    requires
        fp_wf(a@),
    ensures
        fp_wf(r@),
        r@ == fq_neg_of(a@),
{
    let x = Fq::from_bytes(&a.bytes[..].try_into().unwrap()).unwrap();
    Fp { bytes: (-x).to_bytes().to_vec() }
}

/// Relies on the outside library's conversion from machine integers: the
/// result is the canonical encoding of the residue `x`, with zero and one
/// encoded as the all-zero string and the big-endian one.
#[verifier::external_body]
pub fn fq_embed(x: u64) -> (r: Fp)
    ensures
        fp_wf(r@),
        r@ == fq_embed_of(x),
        x == 0 ==> r@ == fq_zero_val(),
        x == 1 ==> r@ == fq_one_val(),
{
    Fp { bytes: Fq::from(x).to_bytes().to_vec() }
}

/// Relies on the outside library's degree-2 addition.
#[verifier::external_body]
pub fn fq2_add(a: &Fp2Point, b: &Fp2Point) -> (r: Fp2Point)
    requires
        fp2_wf(a@),
        fp2_wf(b@),
    ensures
        fp2_wf(r@),
        r@ == fq2_add_of(a@, b@),
{
    let x = Fq2::new(
        Fq::from_bytes(&a.c0.bytes[..].try_into().unwrap()).unwrap(),
        Fq::from_bytes(&a.c1.bytes[..].try_into().unwrap()).unwrap(),
    );
    let y = Fq2::new(
        Fq::from_bytes(&b.c0.bytes[..].try_into().unwrap()).unwrap(),
        Fq::from_bytes(&b.c1.bytes[..].try_into().unwrap()).unwrap(),
    );
    let z = x + y;
    Fp2Point {
        c0: Fp { bytes: z.c0().to_bytes().to_vec() },
        c1: Fp { bytes: z.c1().to_bytes().to_vec() },
    }
}

/// Relies on the outside library's degree-2 subtraction.
#[verifier::external_body]
pub fn fq2_sub(a: &Fp2Point, b: &Fp2Point) -> (r: Fp2Point)
    requires
        fp2_wf(a@),
        fp2_wf(b@),
    ensures
        fp2_wf(r@),
        r@ == fq2_sub_of(a@, b@),
{
    let x = Fq2::new(
        Fq::from_bytes(&a.c0.bytes[..].try_into().unwrap()).unwrap(),
        Fq::from_bytes(&a.c1.bytes[..].try_into().unwrap()).unwrap(),
    );
    let y = Fq2::new(
        Fq::from_bytes(&b.c0.bytes[..].try_into().unwrap()).unwrap(),
        Fq::from_bytes(&b.c1.bytes[..].try_into().unwrap()).unwrap(),
    );
    let z = x - y;
    Fp2Point {
        c0: Fp { bytes: z.c0().to_bytes().to_vec() },
        c1: Fp { bytes: z.c1().to_bytes().to_vec() },
    }
}

/// Relies on the outside library's degree-2 multiplication.
#[verifier::external_body]
pub fn fq2_mul(a: &Fp2Point, b: &Fp2Point) -> (r: Fp2Point)
    requires
        fp2_wf(a@),
        fp2_wf(b@),
    ensures
        fp2_wf(r@),
        r@ == fq2_mul_of(a@, b@),
{
    let x = Fq2::new(
        Fq::from_bytes(&a.c0.bytes[..].try_into().unwrap()).unwrap(),
        Fq::from_bytes(&a.c1.bytes[..].try_into().unwrap()).unwrap(),
    );
    let y = Fq2::new(
        Fq::from_bytes(&b.c0.bytes[..].try_into().unwrap()).unwrap(),
        Fq::from_bytes(&b.c1.bytes[..].try_into().unwrap()).unwrap(),
    );
    let z = x * y;
    Fp2Point {
        c0: Fp { bytes: z.c0().to_bytes().to_vec() },
        c1: Fp { bytes: z.c1().to_bytes().to_vec() },
    }
}

/// Relies on the outside library's degree-2 inversion; a zero argument is
/// mapped to zero, as the unsafe-divide discipline prescribes.
#[verifier::external_body]
pub fn fq2_inv(a: &Fp2Point) -> (r: Fp2Point)
    requires
        fp2_wf(a@),
    ensures
        fp2_wf(r@),
        r@ == fq2_inv_of(a@),
        a@ == fq2_zero_val() ==> r@ == fq2_zero_val(),
{
    let x = Fq2::new(
        Fq::from_bytes(&a.c0.bytes[..].try_into().unwrap()).unwrap(),
        Fq::from_bytes(&a.c1.bytes[..].try_into().unwrap()).unwrap(),
    );
    let z = Option::<Fq2>::from(x.invert()).unwrap_or(Fq2::zero());
    Fp2Point {
        c0: Fp { bytes: z.c0().to_bytes().to_vec() },
        c1: Fp { bytes: z.c1().to_bytes().to_vec() },
    }
}

/// Relies on the outside library's Frobenius coefficient table and its
/// variable-time exponentiation: the result is the `power`th table entry
/// raised to the `i`th power. Entry zero of the table is one, and a zeroth
/// power is one.
#[verifier::external_body]
pub fn frob_coeff(power: usize, i: u64) -> (r: Fp2Point)
    requires
        power < 12,
    ensures
        fp2_wf(r@),
        r@ == frob_coeff_of(power as int, i as int),
        power == 0 ==> r@ == fq2_one_val(),
        i == 0 ==> r@ == fq2_one_val(),
{
    let z = FROBENIUS_COEFF_FQ12_C1[power].pow_vartime([i]);
    Fp2Point {
        c0: Fp { bytes: z.c0().to_bytes().to_vec() },
        c1: Fp { bytes: z.c1().to_bytes().to_vec() },
    }
}

/// Relies on the outside library's canonical decoding: it accepts exactly
/// the 48-byte big-endian strings below the modulus.
#[verifier::external_body]
pub fn fp_load(bytes: Vec<u8>) -> (r: Option<Fp>)
    ensures
        r is Some <==> (bytes@.len() == 48 && be_nat(bytes@) < q_nat()),
        r is Some ==> r.unwrap()@ == bytes@ && fp_wf(bytes@),
{
    let arr: Result<[u8; 48], _> = bytes[..].try_into();
    match arr {
        Err(_) => None,
        Ok(a) => {
            let c = Fq::from_bytes(&a);
            if bool::from(c.is_some()) {
                Some(Fp { bytes })
            } else {
                None
            }
        }
    }
}

} // verus!
