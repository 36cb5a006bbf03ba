//! Cyclotomic compression, decompression, and compressed-domain squaring.
//!
//! A cyclotomic-subgroup element `g0 + g2 w + g4 w^2 + g1 w^3 + g3 w^4 +
//! g5 w^5` is compressed to `[g2, g3, g4, g5]`; `g1` and `g0` are
//! recovered analytically from the subgroup relation on decompression.

use vstd::prelude::*;

use crate::chip::{fq2_add, fq2_add_of, fq2_mul, fq2_mul_of, fq2_sub, fq2_sub_of};
use crate::fp2::{fq2_div, fq2_div_val, fq2_embed, fq2_embed_val, fq2_scalar_mul, fq2_scalar_val};
use crate::fp12::{assemble, assemble12, g_of, xi_val, XI0, XI0_PLUS_1};
use crate::tower::{fp12_wf, fp2_is_zero, fp2_select, fp2_wf, fq2_zero_val, Fp12Chip, Fp12Point,
    Fp2Point};

verus! {

/// The reconstructed `g1` coefficient when `g2` is nonzero:
/// `(c·g5^2 + 3·g4^2 - 2·g3) / (4·g2)`.
pub open spec fn g1_nonzero_val(g2: Seq<Seq<u8>>, g3: Seq<Seq<u8>>, g4: Seq<Seq<u8>>,
    g5: Seq<Seq<u8>>) -> Seq<Seq<u8>> {
    let num = fq2_sub_of(
        fq2_add_of(
            fq2_mul_of(fq2_mul_of(g5, g5), xi_val()),
            fq2_scalar_val(fq2_mul_of(g4, g4), 3),
        ),
        fq2_scalar_val(g3, 2),
    );
    fq2_div_val(num, fq2_scalar_val(g2, 4))
}

/// The reconstructed `g1` coefficient when `g2` is zero: `2·g4·g5 / g3`.
pub open spec fn g1_zero_val(g3: Seq<Seq<u8>>, g4: Seq<Seq<u8>>, g5: Seq<Seq<u8>>)
    -> Seq<Seq<u8>> {
    fq2_div_val(fq2_scalar_val(fq2_mul_of(g4, g5), 2), g3)
}

/// The reconstructed `g1`: both branches are computed and the degenerate
/// one is selected on whether `g2` is zero.
pub open spec fn g1_val(g2: Seq<Seq<u8>>, g3: Seq<Seq<u8>>, g4: Seq<Seq<u8>>, g5: Seq<Seq<u8>>)
    -> Seq<Seq<u8>> {
    if g2 == fq2_zero_val() {
        g1_zero_val(g3, g4, g5)
    } else {
        g1_nonzero_val(g2, g3, g4, g5)
    }
}

/// The reconstructed `g0`: `c·(2·g1^2 + [g2·g5 when g2 is nonzero]
/// - 3·g3·g4) + 1`.
pub open spec fn g0_val(g2: Seq<Seq<u8>>, g3: Seq<Seq<u8>>, g4: Seq<Seq<u8>>, g5: Seq<Seq<u8>>)
    -> Seq<Seq<u8>> {
    let g1 = g1_val(g2, g3, g4, g5);
    let g1_sq_2 = fq2_scalar_val(fq2_mul_of(g1, g1), 2);
    let with_g2g5 = fq2_add_of(g1_sq_2, fq2_mul_of(g2, g5));
    let picked = if g2 == fq2_zero_val() { g1_sq_2 } else { with_g2g5 };
    let folded = fq2_mul_of(fq2_sub_of(picked, fq2_scalar_val(fq2_mul_of(g3, g4), 3)), xi_val());
    fq2_add_of(folded, fq2_embed_val(1, 0))
}

/// The decompressed tower-layout element.
pub open spec fn decompress_val(g2: Seq<Seq<u8>>, g3: Seq<Seq<u8>>, g4: Seq<Seq<u8>>,
    g5: Seq<Seq<u8>>) -> Seq<Seq<u8>> {
    assemble12(seq![g0_val(g2, g3, g4, g5), g2, g4, g1_val(g2, g3, g4, g5), g3, g5])
}

/// Compressed-domain squaring, `A_ij = (g_i + g_j)(g_i + c·g_j)` and
/// `B_ij = g_i·g_j`: the `h2 = 2(g2 + 3c·B45)` output.
pub open spec fn h2_val(g2: Seq<Seq<u8>>, g4: Seq<Seq<u8>>, g5: Seq<Seq<u8>>) -> Seq<Seq<u8>> {
    let b45_c = fq2_mul_of(fq2_mul_of(g4, g5), xi_val());
    fq2_scalar_val(fq2_add_of(fq2_scalar_val(b45_c, 3), g2), 2)
}

/// The `h3 = 3(A45 - (c+1)·B45) - 2·g3` output.
pub open spec fn h3_val(g3: Seq<Seq<u8>>, g4: Seq<Seq<u8>>, g5: Seq<Seq<u8>>) -> Seq<Seq<u8>> {
    let a45 = fq2_mul_of(
        fq2_add_of(g4, g5),
        fq2_add_of(g4, fq2_mul_of(g5, xi_val())),
    );
    let b45 = fq2_mul_of(g4, g5);
    let b45_c = fq2_mul_of(b45, xi_val());
    let t = fq2_scalar_val(fq2_sub_of(a45, fq2_add_of(b45_c, b45)), 3);
    fq2_sub_of(t, fq2_scalar_val(g3, 2))
}

/// The `h4 = 3(A23 - (c+1)·B23) - 2·g4` output.
pub open spec fn h4_val(g2: Seq<Seq<u8>>, g3: Seq<Seq<u8>>, g4: Seq<Seq<u8>>) -> Seq<Seq<u8>> {
    let a23 = fq2_mul_of(
        fq2_add_of(g2, g3),
        fq2_add_of(g2, fq2_mul_of(g3, xi_val())),
    );
    let b23_c1 = fq2_mul_of(fq2_mul_of(g2, g3), fq2_embed_val(XI0_PLUS_1, 1));
    let t = fq2_scalar_val(fq2_sub_of(a23, b23_c1), 3);
    fq2_sub_of(t, fq2_scalar_val(g4, 2))
}

/// The `h5 = 2(g5 + 3·B23)` output.
pub open spec fn h5_val(g2: Seq<Seq<u8>>, g3: Seq<Seq<u8>>, g5: Seq<Seq<u8>>) -> Seq<Seq<u8>> {
    fq2_scalar_val(fq2_add_of(fq2_scalar_val(fq2_mul_of(g2, g3), 3), g5), 2)
}

/// A well-formed compressed element: exactly four well-formed degree-2
/// coefficients.
pub open spec fn compression_wf(c: Seq<Seq<Seq<u8>>>) -> bool {
    c.len() == 4 && fp2_wf(c[0]) && fp2_wf(c[1]) && fp2_wf(c[2]) && fp2_wf(c[3])
}

impl Fp12Chip {
    /// Compression is a pure relabeling: extract `[g2, g3, g4, g5]` and
    /// discard `g0, g1`.
    pub fn cyclotomic_compress(&self, a: &Fp12Point) -> (r: Vec<Fp2Point>)
        requires
            fp12_wf(a@),
        ensures
            r@.len() == 4,
            r@[0]@ == g_of(a@, 1),
            r@[1]@ == g_of(a@, 4),
            r@[2]@ == g_of(a@, 2),
            r@[3]@ == g_of(a@, 5),
            compression_wf(seq![r@[0]@, r@[1]@, r@[2]@, r@[3]@]),
    {
        let mut r: Vec<Fp2Point> = Vec::new();
        r.push(crate::fp12::slot(a, 1));
        r.push(crate::fp12::slot(a, 4));
        r.push(crate::fp12::slot(a, 2));
        r.push(crate::fp12::slot(a, 5));
        r
    }

    /// Decompression reconstructs `g1` and `g0`; both branches of `g1` are
    /// computed unconditionally and the degenerate one is selected on
    /// whether `g2` is zero, never branched on.
    pub fn cyclotomic_decompress(&self, compression: Vec<Fp2Point>) -> (r: Fp12Point)
        requires
            compression@.len() == 4,
            fp2_wf(compression@[0]@),
            fp2_wf(compression@[1]@),
            fp2_wf(compression@[2]@),
            fp2_wf(compression@[3]@),
        ensures
            fp12_wf(r@),
            r@ == decompress_val(compression@[0]@, compression@[1]@, compression@[2]@,
                compression@[3]@),
    {
        let g2 = &compression[0];
        let g3 = &compression[1];
        let g4 = &compression[2];
        let g5 = &compression[3];
        let xi = fq2_embed(XI0, 1);

        let g5_sq = fq2_mul(g5, g5);
        let g5_sq_c = fq2_mul(&g5_sq, &xi);
        let g4_sq_3 = fq2_scalar_mul(&fq2_mul(g4, g4), 3);
        let g3_2 = fq2_scalar_mul(g3, 2);
        let g1_num = fq2_sub(&fq2_add(&g5_sq_c, &g4_sq_3), &g3_2);
        let g2_4 = fq2_scalar_mul(g2, 4);
        let g1_1 = fq2_div(&g1_num, &g2_4);

        let g1_0 = fq2_div(&fq2_scalar_mul(&fq2_mul(g4, g5), 2), g3);

        let g2_is_zero = fp2_is_zero(g2);
        let g1 = fp2_select(g1_0, g1_1, g2_is_zero);
        assert(g1@ == g1_val(g2@, g3@, g4@, g5@));

        let g1_sq_2 = fq2_scalar_mul(&fq2_mul(&g1, &g1), 2);
        let g2_g5 = fq2_mul(g2, g5);
        let g3_g4_3 = fq2_scalar_mul(&fq2_mul(g3, g4), 3);
        let with_g2g5 = fq2_add(&g1_sq_2, &g2_g5);
        let picked = fp2_select(g1_sq_2, with_g2g5, g2_is_zero);
        let folded = fq2_mul(&fq2_sub(&picked, &g3_g4_3), &xi);
        let g0 = fq2_add(&folded, &fq2_embed(1, 0));
        assert(g0@ == g0_val(g2@, g3@, g4@, g5@));

        assemble(g0, g2.dup(), g4.dup(), g1, g3.dup(), g5.dup())
    }

    /// Squaring directly in compressed form.
    pub fn cyclotomic_square(&self, compression: &Vec<Fp2Point>) -> (r: Vec<Fp2Point>)
        requires
            compression@.len() == 4,
            fp2_wf(compression@[0]@),
            fp2_wf(compression@[1]@),
            fp2_wf(compression@[2]@),
            fp2_wf(compression@[3]@),
        ensures
            r@.len() == 4,
            r@[0]@ == h2_val(compression@[0]@, compression@[2]@, compression@[3]@),
            r@[1]@ == h3_val(compression@[1]@, compression@[2]@, compression@[3]@),
            r@[2]@ == h4_val(compression@[0]@, compression@[1]@, compression@[2]@),
            r@[3]@ == h5_val(compression@[0]@, compression@[1]@, compression@[3]@),
            compression_wf(seq![r@[0]@, r@[1]@, r@[2]@, r@[3]@]),
    {
        let g2 = &compression[0];
        let g3 = &compression[1];
        let g4 = &compression[2];
        let g5 = &compression[3];
        let xi = fq2_embed(XI0, 1);

        let g2_plus_g3 = fq2_add(g2, g3);
        let cg3 = fq2_mul(g3, &xi);
        let g2_plus_cg3 = fq2_add(g2, &cg3);
        let a23 = fq2_mul(&g2_plus_g3, &g2_plus_cg3);

        let g4_plus_g5 = fq2_add(g4, g5);
        let cg5 = fq2_mul(g5, &xi);
        let g4_plus_cg5 = fq2_add(g4, &cg5);
        let a45 = fq2_mul(&g4_plus_g5, &g4_plus_cg5);

        let b23 = fq2_mul(g2, g3);
        let b45 = fq2_mul(g4, g5);
        let b45_c = fq2_mul(&b45, &xi);

        let h2 = fq2_scalar_mul(&fq2_add(&fq2_scalar_mul(&b45_c, 3), g2), 2);

        let t3 = fq2_scalar_mul(&fq2_sub(&a45, &fq2_add(&b45_c, &b45)), 3);
        let h3 = fq2_sub(&t3, &fq2_scalar_mul(g3, 2));

        let b23_c1 = fq2_mul(&b23, &fq2_embed(XI0_PLUS_1, 1));
        let t4 = fq2_scalar_mul(&fq2_sub(&a23, &b23_c1), 3);
        let h4 = fq2_sub(&t4, &fq2_scalar_mul(g4, 2));

        let h5 = fq2_scalar_mul(&fq2_add(&fq2_scalar_mul(&b23, 3), g5), 2);

        let mut r: Vec<Fp2Point> = Vec::new();
        r.push(h2);
        r.push(h3);
        r.push(h4);
        r.push(h5);
        r
    }
}

/// Compression keeps `g2, g3, g4, g5` untouched, and decompression puts
/// them back in their slots: the round trip restores the four compressed
/// coefficients of the element exactly. (That it also restores `g0` and
/// `g1` is an algebraic fact about the subgroup, checked by tests against
/// the outside arithmetic, not proved here.)
pub proof fn lemma_round_trip_keeps_compressed_part(a: Seq<Seq<u8>>)
    requires
        fp12_wf(a),
    ensures
        decompress_val(g_of(a, 1), g_of(a, 4), g_of(a, 2), g_of(a, 5)).len() == 12,
        decompress_val(g_of(a, 1), g_of(a, 4), g_of(a, 2), g_of(a, 5))[1] == a[1],
        decompress_val(g_of(a, 1), g_of(a, 4), g_of(a, 2), g_of(a, 5))[2] == a[2],
        decompress_val(g_of(a, 1), g_of(a, 4), g_of(a, 2), g_of(a, 5))[4] == a[4],
        decompress_val(g_of(a, 1), g_of(a, 4), g_of(a, 2), g_of(a, 5))[5] == a[5],
        decompress_val(g_of(a, 1), g_of(a, 4), g_of(a, 2), g_of(a, 5))[7] == a[7],
        decompress_val(g_of(a, 1), g_of(a, 4), g_of(a, 2), g_of(a, 5))[8] == a[8],
        decompress_val(g_of(a, 1), g_of(a, 4), g_of(a, 2), g_of(a, 5))[10] == a[10],
        decompress_val(g_of(a, 1), g_of(a, 4), g_of(a, 2), g_of(a, 5))[11] == a[11],
{
}

} // verus!
