//! The Frobenius endomorphism `a ↦ a^(p^power)` on degree-12 elements.
//!
//! It relies on the base prime being 3 mod 4 and 1 mod 6 — both proved
//! once, by computation, of the fixed modulus — so that an odd power acts
//! on each degree-2 coefficient as conjugation, followed by multiplication
//! with a precomputed coefficient.

use vstd::prelude::*;

use crate::chip::{frob_coeff, frob_coeff_of, fq2_mul, fq2_mul_of, fq_embed};
use crate::fp2::{fq2_conj, fq2_conj_val};
use crate::fp12::{assemble, assemble12, g_of, slot};
use crate::tower::{eq_bytes, fp12_wf, fp2_wf, fp_zero, fq2_one_val, q_nat, Fp12Chip, Fp12Point,
    Fp2Point};

verus! {

/// One output coefficient of the Frobenius map: the input coefficient,
/// conjugated for odd powers, then multiplied by the table coefficient
/// unless that coefficient is one.
pub open spec fn frob_coeff_out(a: Seq<Seq<u8>>, pow: int, i: int) -> Seq<Seq<u8>> {
    let g = g_of(a, i);
    let g1 = if pow % 2 == 1 {
        fq2_conj_val(g)
    } else {
        g
    };
    if frob_coeff_of(pow, i) == fq2_one_val() {
        g1
    } else {
        fq2_mul_of(g1, frob_coeff_of(pow, i))
    }
}

/// The Frobenius map in tower layout.
pub open spec fn frob12_val(a: Seq<Seq<u8>>, pow: int) -> Seq<Seq<u8>> {
    assemble12(Seq::new(6, |i: int| frob_coeff_out(a, pow, i)))
}

/// One coefficient of the Frobenius map, computed.
fn frob_slot(a: &Fp12Point, pow: usize, i: usize) -> (r: Fp2Point)
    requires
        fp12_wf(a@),
        pow < 12,
        i < 6,
    ensures
        fp2_wf(r@),
        r@ == frob_coeff_out(a@, pow as int, i as int),
        pow == 0 ==> r@ == g_of(a@, i as int),
{
    let g = slot(a, i);
    let g1 = if pow % 2 == 1 {
        fq2_conj(&g)
    } else {
        g
    };
    let coeff = frob_coeff(pow, i as u64);
    let one = fq_embed(1);
    let zero = fp_zero();
    let coeff_is_one = eq_bytes(&coeff.c0.bytes, &one.bytes) && eq_bytes(
        &coeff.c1.bytes,
        &zero.bytes,
    );
    if coeff_is_one {
        assert(coeff@ =~= fq2_one_val());
        g1
    } else {
        assert(coeff@ != fq2_one_val()) by {
            if coeff.c0@ != one@ {
                assert(coeff@[0] != fq2_one_val()[0]);
            } else {
                assert(coeff@[1] != fq2_one_val()[1]);
            }
        }
        fq2_mul(&g1, &coeff)
    }
}

impl Fp12Chip {
    /// `a` raised to the `power`th power of the base prime. A power that is
    /// zero modulo 12 leaves the element unchanged.
    pub fn frobenius_map(&self, a: &Fp12Point, power: usize) -> (r: Fp12Point)
        requires
            fp12_wf(a@),
        ensures
            fp12_wf(r@),
            r@ == frob12_val(a@, (power % 12) as int),
            power % 12 == 0 ==> r@ == a@,
    {
        proof {
            // The curve-constant preconditions of the coefficient table.
            assert(q_nat() % 4 == 3);
            assert(q_nat() % 6 == 1);
        }
        let pow = power % 12;
        let r = assemble(
            frob_slot(a, pow, 0),
            frob_slot(a, pow, 1),
            frob_slot(a, pow, 2),
            frob_slot(a, pow, 3),
            frob_slot(a, pow, 4),
            frob_slot(a, pow, 5),
        );
        proof {
            assert(r@ =~= frob12_val(a@, pow as int));
            if pow == 0 {
                assert(r@ =~= a@);
            }
        }
        r
    }
}

} // verus!
