//! Degree-12 arithmetic in tower layout, built on the degree-2 interface.
//!
//! A degree-12 element is `s0 + s1 w + ... + s5 w^5` with degree-2
//! coefficients `s_k` held at positions `k` (real part) and `k + 6`
//! (imaginary part); `w^2 = v` generates the middle cubic extension with
//! `v^3` equal to the quadratic non-residue `XI0 + u`.

use vstd::prelude::*;

use crate::chip::{fq2_add, fq2_add_of, fq2_inv, fq2_inv_of, fq2_mul, fq2_mul_of, fq2_sub,
    fq2_sub_of, fq_embed, fq_neg, fq_neg_of};
use crate::fp2::{fq2_embed, fq2_embed_val, fq2_neg, fq2_neg_val};
use crate::tower::{fp12_wf, fp2_wf, fp_wf, fq_one_val, fq_zero_val, Fp, Fp12Chip, Fp12Point,
    Fp2Point};

verus! {

/// The real part of the quadratic non-residue `XI0 + u` the tower is built
/// with.
pub const XI0: u64 = 1;

/// The real part of the non-residue, shifted by one: the constant
/// `(c + 1)` of the compressed squaring formulas.
pub const XI0_PLUS_1: u64 = XI0 + 1;

/// The quadratic non-residue as a degree-2 value.
pub open spec fn xi_val() -> Seq<Seq<u8>> {
    fq2_embed_val(XI0, 1)
}

/// The degree-2 coefficient of `w^k`, read out of the tower layout.
pub open spec fn g_of(a: Seq<Seq<u8>>, k: int) -> Seq<Seq<u8>> {
    seq![a[k], a[k + 6]]
}

/// Six degree-2 coefficients assembled into the tower layout.
pub open spec fn assemble12(g: Seq<Seq<Seq<u8>>>) -> Seq<Seq<u8>> {
    Seq::new(12, |k: int| if k < 6 { g[k][0] } else { g[k - 6][1] })
}

/// First cubic-extension coefficient of a product over `v^3 = XI0 + u`.
pub open spec fn fq6_mul_c0(
    x0: Seq<Seq<u8>>, x1: Seq<Seq<u8>>, x2: Seq<Seq<u8>>,
    y0: Seq<Seq<u8>>, y1: Seq<Seq<u8>>, y2: Seq<Seq<u8>>,
) -> Seq<Seq<u8>> {
    fq2_add_of(
        fq2_mul_of(x0, y0),
        fq2_mul_of(xi_val(), fq2_add_of(fq2_mul_of(x1, y2), fq2_mul_of(x2, y1))),
    )
}

/// Second cubic-extension coefficient of a product over `v^3 = XI0 + u`.
pub open spec fn fq6_mul_c1(
    x0: Seq<Seq<u8>>, x1: Seq<Seq<u8>>, x2: Seq<Seq<u8>>,
    y0: Seq<Seq<u8>>, y1: Seq<Seq<u8>>, y2: Seq<Seq<u8>>,
) -> Seq<Seq<u8>> {
    fq2_add_of(
        fq2_add_of(fq2_mul_of(x0, y1), fq2_mul_of(x1, y0)),
        fq2_mul_of(xi_val(), fq2_mul_of(x2, y2)),
    )
}

/// Third cubic-extension coefficient of a product over `v^3 = XI0 + u`.
pub open spec fn fq6_mul_c2(
    x0: Seq<Seq<u8>>, x1: Seq<Seq<u8>>, x2: Seq<Seq<u8>>,
    y0: Seq<Seq<u8>>, y1: Seq<Seq<u8>>, y2: Seq<Seq<u8>>,
) -> Seq<Seq<u8>> {
    fq2_add_of(
        fq2_add_of(fq2_mul_of(x0, y2), fq2_mul_of(x1, y1)),
        fq2_mul_of(x2, y0),
    )
}

/// The tower-layout product of two degree-12 values: the even (powers of
/// `v`) and odd (`w` times powers of `v`) halves are multiplied as cubic
/// extensions, and the odd-times-odd half is folded back through
/// `w^2 = v`.
pub open spec fn fq12_mul_val(a: Seq<Seq<u8>>, b: Seq<Seq<u8>>) -> Seq<Seq<u8>> {
    let (ae0, ae1, ae2) = (g_of(a, 0), g_of(a, 2), g_of(a, 4));
    let (ao0, ao1, ao2) = (g_of(a, 1), g_of(a, 3), g_of(a, 5));
    let (be0, be1, be2) = (g_of(b, 0), g_of(b, 2), g_of(b, 4));
    let (bo0, bo1, bo2) = (g_of(b, 1), g_of(b, 3), g_of(b, 5));
    let e0 = fq2_add_of(
        fq6_mul_c0(ae0, ae1, ae2, be0, be1, be2),
        fq2_mul_of(xi_val(), fq6_mul_c2(ao0, ao1, ao2, bo0, bo1, bo2)),
    );
    let e1 = fq2_add_of(
        fq6_mul_c1(ae0, ae1, ae2, be0, be1, be2),
        fq6_mul_c0(ao0, ao1, ao2, bo0, bo1, bo2),
    );
    let e2 = fq2_add_of(
        fq6_mul_c2(ae0, ae1, ae2, be0, be1, be2),
        fq6_mul_c1(ao0, ao1, ao2, bo0, bo1, bo2),
    );
    let o0 = fq2_add_of(
        fq6_mul_c0(ae0, ae1, ae2, bo0, bo1, bo2),
        fq6_mul_c0(ao0, ao1, ao2, be0, be1, be2),
    );
    let o1 = fq2_add_of(
        fq6_mul_c1(ae0, ae1, ae2, bo0, bo1, bo2),
        fq6_mul_c1(ao0, ao1, ao2, be0, be1, be2),
    );
    let o2 = fq2_add_of(
        fq6_mul_c2(ae0, ae1, ae2, bo0, bo1, bo2),
        fq6_mul_c2(ao0, ao1, ao2, be0, be1, be2),
    );
    assemble12(seq![e0, o0, e1, o1, e2, o2])
}

/// The conjugate of a degree-12 value: the coefficients of the odd powers
/// of `w` are negated.
pub open spec fn fq12_conj_val(a: Seq<Seq<u8>>) -> Seq<Seq<u8>> {
    Seq::new(12, |k: int| if (k % 6) % 2 == 1 { fq_neg_of(a[k]) } else { a[k] })
}

/// The multiplicative identity in tower layout.
pub open spec fn fq12_one_val() -> Seq<Seq<u8>> {
    Seq::new(12, |k: int| if k == 0 { fq_one_val() } else { fq_zero_val() })
}

/// First coefficient of a cubic-extension inverse before the norm
/// division: `x0^2 - c·x1·x2`.
pub open spec fn fq6_inv_c0(x0: Seq<Seq<u8>>, x1: Seq<Seq<u8>>, x2: Seq<Seq<u8>>)
    -> Seq<Seq<u8>> {
    fq2_sub_of(fq2_mul_of(x0, x0), fq2_mul_of(xi_val(), fq2_mul_of(x1, x2)))
}

/// Second coefficient: `c·x2^2 - x0·x1`.
pub open spec fn fq6_inv_c1(x0: Seq<Seq<u8>>, x1: Seq<Seq<u8>>, x2: Seq<Seq<u8>>)
    -> Seq<Seq<u8>> {
    fq2_sub_of(fq2_mul_of(xi_val(), fq2_mul_of(x2, x2)), fq2_mul_of(x0, x1))
}

/// Third coefficient: `x1^2 - x0·x2`.
pub open spec fn fq6_inv_c2(x0: Seq<Seq<u8>>, x1: Seq<Seq<u8>>, x2: Seq<Seq<u8>>)
    -> Seq<Seq<u8>> {
    fq2_sub_of(fq2_mul_of(x1, x1), fq2_mul_of(x0, x2))
}

/// The cubic-extension norm divided out of the inverse:
/// `x0·C0 + c·x2·C1 + c·x1·C2`.
pub open spec fn fq6_inv_norm(x0: Seq<Seq<u8>>, x1: Seq<Seq<u8>>, x2: Seq<Seq<u8>>)
    -> Seq<Seq<u8>> {
    fq2_add_of(
        fq2_mul_of(x0, fq6_inv_c0(x0, x1, x2)),
        fq2_add_of(
            fq2_mul_of(xi_val(), fq2_mul_of(x2, fq6_inv_c1(x0, x1, x2))),
            fq2_mul_of(xi_val(), fq2_mul_of(x1, fq6_inv_c2(x0, x1, x2))),
        ),
    )
}

/// The cubic-extension inverse: the three coefficients scaled by the
/// inverted norm. A zero argument yields zero, as the unsafe-divide
/// discipline prescribes.
pub open spec fn fq6_inv_val(x0: Seq<Seq<u8>>, x1: Seq<Seq<u8>>, x2: Seq<Seq<u8>>) -> (
    Seq<Seq<u8>>, Seq<Seq<u8>>, Seq<Seq<u8>>) {
    let n = fq2_inv_of(fq6_inv_norm(x0, x1, x2));
    (
        fq2_mul_of(fq6_inv_c0(x0, x1, x2), n),
        fq2_mul_of(fq6_inv_c1(x0, x1, x2), n),
        fq2_mul_of(fq6_inv_c2(x0, x1, x2), n),
    )
}

/// The degree-12 inverse in tower layout: with `A + B·w` the even and odd
/// halves, it is `(A - B·w)·(A^2 - v·B^2)^{-1}`.
pub open spec fn fq12_inv_val(a: Seq<Seq<u8>>) -> Seq<Seq<u8>> {
    let (a0, a1, a2) = (g_of(a, 0), g_of(a, 2), g_of(a, 4));
    let (b0, b1, b2) = (g_of(a, 1), g_of(a, 3), g_of(a, 5));
    let n0 = fq2_sub_of(
        fq6_mul_c0(a0, a1, a2, a0, a1, a2),
        fq2_mul_of(xi_val(), fq6_mul_c2(b0, b1, b2, b0, b1, b2)),
    );
    let n1 = fq2_sub_of(
        fq6_mul_c1(a0, a1, a2, a0, a1, a2),
        fq6_mul_c0(b0, b1, b2, b0, b1, b2),
    );
    let n2 = fq2_sub_of(
        fq6_mul_c2(a0, a1, a2, a0, a1, a2),
        fq6_mul_c1(b0, b1, b2, b0, b1, b2),
    );
    let m = fq6_inv_val(n0, n1, n2);
    let e0 = fq6_mul_c0(a0, a1, a2, m.0, m.1, m.2);
    let e1 = fq6_mul_c1(a0, a1, a2, m.0, m.1, m.2);
    let e2 = fq6_mul_c2(a0, a1, a2, m.0, m.1, m.2);
    let o0 = fq2_neg_val(fq6_mul_c0(b0, b1, b2, m.0, m.1, m.2));
    let o1 = fq2_neg_val(fq6_mul_c1(b0, b1, b2, m.0, m.1, m.2));
    let o2 = fq2_neg_val(fq6_mul_c2(b0, b1, b2, m.0, m.1, m.2));
    assemble12(seq![e0, o0, e1, o1, e2, o2])
}

/// The quotient under the unsafe-divide discipline: the dividend times the
/// inverse of the divisor, zero inverse standing in for a zero divisor.
pub open spec fn fq12_div_val(a: Seq<Seq<u8>>, b: Seq<Seq<u8>>) -> Seq<Seq<u8>> {
    fq12_mul_val(a, fq12_inv_val(b))
}

/// The degree-2 coefficient of `w^k`, as an owned pair.
pub fn slot(a: &Fp12Point, k: usize) -> (r: Fp2Point)
    requires
        fp12_wf(a@),
        k < 6,
    ensures
        fp2_wf(r@),
        r@ == g_of(a@, k as int),
{
    let r = Fp2Point { c0: a.c[k].dup(), c1: a.c[k + 6].dup() };
    assert(r@ =~= g_of(a@, k as int));
    r
}

/// Six degree-2 coefficients assembled into a tower-layout element.
pub fn assemble(s0: Fp2Point, s1: Fp2Point, s2: Fp2Point, s3: Fp2Point, s4: Fp2Point,
    s5: Fp2Point) -> (r: Fp12Point)
    requires
        fp2_wf(s0@), fp2_wf(s1@), fp2_wf(s2@), fp2_wf(s3@), fp2_wf(s4@), fp2_wf(s5@),
    ensures
        fp12_wf(r@),
        r@ == assemble12(seq![s0@, s1@, s2@, s3@, s4@, s5@]),
{
    let mut c: Vec<Fp> = Vec::new();
    c.push(s0.c0); c.push(s1.c0); c.push(s2.c0); c.push(s3.c0); c.push(s4.c0); c.push(s5.c0);
    c.push(s0.c1); c.push(s1.c1); c.push(s2.c1); c.push(s3.c1); c.push(s4.c1); c.push(s5.c1);
    let r = Fp12Point { c };
    assert(r@ =~= assemble12(seq![s0@, s1@, s2@, s3@, s4@, s5@]));
    r
}

/// One cubic-extension product with coefficients `(x0, x1, x2)` and
/// `(y0, y1, y2)` over `v^3 = XI0 + u`.
fn fq6_mul(x0: &Fp2Point, x1: &Fp2Point, x2: &Fp2Point, y0: &Fp2Point, y1: &Fp2Point,
    y2: &Fp2Point) -> (r: (Fp2Point, Fp2Point, Fp2Point))
    requires
        fp2_wf(x0@), fp2_wf(x1@), fp2_wf(x2@), fp2_wf(y0@), fp2_wf(y1@), fp2_wf(y2@),
    ensures
        fp2_wf(r.0@) && fp2_wf(r.1@) && fp2_wf(r.2@),
        r.0@ == fq6_mul_c0(x0@, x1@, x2@, y0@, y1@, y2@),
        r.1@ == fq6_mul_c1(x0@, x1@, x2@, y0@, y1@, y2@),
        r.2@ == fq6_mul_c2(x0@, x1@, x2@, y0@, y1@, y2@),
{
    let xi = fq2_embed(XI0, 1);
    let c0 = fq2_add(
        &fq2_mul(x0, y0),
        &fq2_mul(&xi, &fq2_add(&fq2_mul(x1, y2), &fq2_mul(x2, y1))),
    );
    let c1 = fq2_add(
        &fq2_add(&fq2_mul(x0, y1), &fq2_mul(x1, y0)),
        &fq2_mul(&xi, &fq2_mul(x2, y2)),
    );
    let c2 = fq2_add(
        &fq2_add(&fq2_mul(x0, y2), &fq2_mul(x1, y1)),
        &fq2_mul(x2, y0),
    );
    (c0, c1, c2)
}

/// One cubic-extension inversion over the degree-2 interface.
fn fq6_inv(x0: &Fp2Point, x1: &Fp2Point, x2: &Fp2Point) -> (r: (Fp2Point, Fp2Point, Fp2Point))
    requires
        fp2_wf(x0@), fp2_wf(x1@), fp2_wf(x2@),
    ensures
        fp2_wf(r.0@) && fp2_wf(r.1@) && fp2_wf(r.2@),
        r.0@ == fq6_inv_val(x0@, x1@, x2@).0,
        r.1@ == fq6_inv_val(x0@, x1@, x2@).1,
        r.2@ == fq6_inv_val(x0@, x1@, x2@).2,
{
    let xi = fq2_embed(XI0, 1);
    let c0 = fq2_sub(&fq2_mul(x0, x0), &fq2_mul(&xi, &fq2_mul(x1, x2)));
    let c1 = fq2_sub(&fq2_mul(&xi, &fq2_mul(x2, x2)), &fq2_mul(x0, x1));
    let c2 = fq2_sub(&fq2_mul(x1, x1), &fq2_mul(x0, x2));
    let n = fq2_add(
        &fq2_mul(x0, &c0),
        &fq2_add(&fq2_mul(&xi, &fq2_mul(x2, &c1)), &fq2_mul(&xi, &fq2_mul(x1, &c2))),
    );
    let ninv = fq2_inv(&n);
    (fq2_mul(&c0, &ninv), fq2_mul(&c1, &ninv), fq2_mul(&c2, &ninv))
}

/// The degree-12 inverse, computed through the tower from the degree-2
/// interface. Inversion of a genuinely zero element yields zero; callers
/// rule zero out where soundness needs it.
pub fn fq12_inv(a: &Fp12Point) -> (r: Fp12Point)
    requires
        fp12_wf(a@),
    ensures
        fp12_wf(r@),
        r@ == fq12_inv_val(a@),
{
    let (a0, a1, a2) = (slot(a, 0), slot(a, 2), slot(a, 4));
    let (b0, b1, b2) = (slot(a, 1), slot(a, 3), slot(a, 5));
    let xi = fq2_embed(XI0, 1);
    let (s0, s1, s2) = fq6_mul(&a0, &a1, &a2, &a0, &a1, &a2);
    let (t0, t1, t2) = fq6_mul(&b0, &b1, &b2, &b0, &b1, &b2);
    let n0 = fq2_sub(&s0, &fq2_mul(&xi, &t2));
    let n1 = fq2_sub(&s1, &t0);
    let n2 = fq2_sub(&s2, &t1);
    let (m0, m1, m2) = fq6_inv(&n0, &n1, &n2);
    let (e0, e1, e2) = fq6_mul(&a0, &a1, &a2, &m0, &m1, &m2);
    let (q0, q1, q2) = fq6_mul(&b0, &b1, &b2, &m0, &m1, &m2);
    let o0 = fq2_neg(&q0);
    let o1 = fq2_neg(&q1);
    let o2 = fq2_neg(&q2);
    assemble(e0, o0, e1, o1, e2, o2)
}

/// The product of two degree-12 elements in tower layout.
pub fn fq12_mul(a: &Fp12Point, b: &Fp12Point) -> (r: Fp12Point)
    requires
        fp12_wf(a@),
        fp12_wf(b@),
    ensures
        fp12_wf(r@),
        r@ == fq12_mul_val(a@, b@),
{
    let (ae0, ae1, ae2) = (slot(a, 0), slot(a, 2), slot(a, 4));
    let (ao0, ao1, ao2) = (slot(a, 1), slot(a, 3), slot(a, 5));
    let (be0, be1, be2) = (slot(b, 0), slot(b, 2), slot(b, 4));
    let (bo0, bo1, bo2) = (slot(b, 1), slot(b, 3), slot(b, 5));
    let xi = fq2_embed(XI0, 1);
    let (ee0, ee1, ee2) = fq6_mul(&ae0, &ae1, &ae2, &be0, &be1, &be2);
    let (oo0, oo1, oo2) = fq6_mul(&ao0, &ao1, &ao2, &bo0, &bo1, &bo2);
    let (eo0, eo1, eo2) = fq6_mul(&ae0, &ae1, &ae2, &bo0, &bo1, &bo2);
    let (oe0, oe1, oe2) = fq6_mul(&ao0, &ao1, &ao2, &be0, &be1, &be2);
    let e0 = fq2_add(&ee0, &fq2_mul(&xi, &oo2));
    let e1 = fq2_add(&ee1, &oo0);
    let e2 = fq2_add(&ee2, &oo1);
    let o0 = fq2_add(&eo0, &oe0);
    let o1 = fq2_add(&eo1, &oe1);
    let o2 = fq2_add(&eo2, &oe2);
    assemble(e0, o0, e1, o1, e2, o2)
}

/// The multiplicative identity element.
pub fn fp12_one() -> (r: Fp12Point)
    ensures
        fp12_wf(r@),
        r@ == fq12_one_val(),
{
    let mut c: Vec<Fp> = Vec::new();
    c.push(fq_embed(1));
    let mut i: usize = 1;
    while i < 12
        invariant
            1 <= i <= 12,
            c@.len() == i,
            c@[0]@ == fq_one_val(),
            forall|j: int| 1 <= j < i ==> c@[j]@ == fq_zero_val(),
            forall|j: int| 0 <= j < i ==> fp_wf(#[trigger] c@[j]@),
        decreases 12 - i,
    {
        c.push(fq_embed(0));
        i = i + 1;
    }
    let r = Fp12Point { c };
    assert(r@ =~= fq12_one_val());
    r
}

impl Fp12Chip {
    /// The conjugate: `a` raised to the sixth Frobenius power.
    pub fn conjugate(&self, a: &Fp12Point) -> (r: Fp12Point)
        requires
            fp12_wf(a@),
        ensures
            fp12_wf(r@),
            r@ == fq12_conj_val(a@),
    {
        let mut c: Vec<Fp> = Vec::new();
        let mut k: usize = 0;
        while k < 12
            invariant
                k <= 12,
                fp12_wf(a@),
                c@.len() == k,
                forall|j: int| 0 <= j < k ==> fp_wf(#[trigger] c@[j]@),
                forall|j: int| 0 <= j < k ==> c@[j]@ == (if (j % 6) % 2 == 1 {
                    fq_neg_of(a@[j])
                } else {
                    a@[j]
                }),
            decreases 12 - k,
        {
            assert(a.c@[k as int]@ == a@[k as int]);
            if (k % 6) % 2 == 1 {
                c.push(fq_neg(&a.c[k]));
            } else {
                c.push(a.c[k].dup());
            }
            k = k + 1;
        }
        let r = Fp12Point { c };
        assert(r@ =~= fq12_conj_val(a@));
        r
    }

    /// Division with witness: the quotient is consistent with dividend and
    /// divisor, but a zero divisor is not excluded here — the caller must
    /// rule it out where soundness needs it.
    pub fn devide(&self, a: &Fp12Point, b: &Fp12Point) -> (r: Fp12Point)
        requires
            fp12_wf(a@),
            fp12_wf(b@),
        ensures
            fp12_wf(r@),
            r@ == fq12_div_val(a@, b@),
    {
        let binv = fq12_inv(b);
        fq12_mul(a, &binv)
    }
}

} // verus!
