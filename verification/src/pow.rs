//! Square-and-multiply exponentiation drivers.
//!
//! `pow` walks the non-adjacent form of the exponent over the full
//! degree-12 group; `cyclotomic_pow` does the same but squares in
//! compressed form, decompressing lazily; `cyclotomic_pow_bls` is the
//! bit-driven variant specialized to the fixed curve parameter, with a
//! final conjugation for the parameter's sign convention.

use vstd::prelude::*;

use crate::compress::{compression_wf, decompress_val, h2_val, h3_val, h4_val, h5_val};
use crate::fp12::{fq12_div_val, fq12_mul, fq12_mul_val, fq12_one_val, fp12_one, g_of};
use crate::naf::{digits_ok, naf_digits, get_naf};
use crate::square_bls::cyc_square_bls_val;
use crate::tower::{fp12_wf, Fp12Chip, Fp12Point, Fp2Point};

verus! {

/// The absolute value of the fixed BLS12-381 curve parameter.
pub const BLS_X: u64 = 0xd201_0000_0001_0000;

/// The `(is_started, result)` state of the plain driver after the digits
/// at positions `i` and above have been processed, most significant first.
pub open spec fn pow_state(a: Seq<Seq<u8>>, naf: Seq<i8>, i: int) -> (bool, Seq<Seq<u8>>)
    decreases naf.len() - i,
{
    if i >= naf.len() {
        (false, a)
    } else {
        let st = pow_state(a, naf, i + 1);
        let d = naf[i];
        if st.0 {
            let sq = fq12_mul_val(st.1, st.1);
            if d == 1 {
                (true, fq12_mul_val(sq, a))
            } else if d == -1 {
                (true, fq12_div_val(sq, a))
            } else {
                (true, sq)
            }
        } else {
            if d != 0 {
                (true, a)
            } else {
                (false, a)
            }
        }
    }
}

/// The compressed coefficients `[g2, g3, g4, g5]` of an element.
pub open spec fn compress4(a: Seq<Seq<u8>>) -> (Seq<Seq<u8>>, Seq<Seq<u8>>, Seq<Seq<u8>>,
    Seq<Seq<u8>>) {
    (g_of(a, 1), g_of(a, 4), g_of(a, 2), g_of(a, 5))
}

/// One compressed-domain squaring on a compressed quadruple.
pub open spec fn square4(c: (Seq<Seq<u8>>, Seq<Seq<u8>>, Seq<Seq<u8>>, Seq<Seq<u8>>)) -> (
    Seq<Seq<u8>>, Seq<Seq<u8>>, Seq<Seq<u8>>, Seq<Seq<u8>>) {
    (h2_val(c.0, c.2, c.3), h3_val(c.1, c.2, c.3), h4_val(c.0, c.1, c.2), h5_val(c.0, c.1, c.3))
}

/// The `(is_started, compression, output)` state of the cyclotomic driver
/// after the digits at positions `i` and above have been processed.
pub open spec fn cyc_pow_state(a: Seq<Seq<u8>>, naf: Seq<i8>, i: int) -> (bool, (Seq<Seq<u8>>,
    Seq<Seq<u8>>, Seq<Seq<u8>>, Seq<Seq<u8>>), Option<Seq<Seq<u8>>>)
    decreases naf.len() - i,
{
    if i >= naf.len() {
        (false, compress4(a), None::<Seq<Seq<u8>>>)
    } else {
        let st = cyc_pow_state(a, naf, i + 1);
        let comp = if st.0 { square4(st.1) } else { st.1 };
        let d = naf[i];
        if d != 0 {
            if st.0 {
                let dec = decompress_val(comp.0, comp.1, comp.2, comp.3);
                let res = if d == 1 {
                    fq12_mul_val(dec, a)
                } else {
                    fq12_div_val(dec, a)
                };
                (true, compress4(res), Some(res))
            } else {
                (true, comp, st.2)
            }
        } else {
            (st.0, comp, st.2)
        }
    }
}

/// The cyclotomic driver's result: a trailing zero digit forces one last
/// decompression; with no nonzero digit at all the input is returned.
pub open spec fn cyc_pow_val(a: Seq<Seq<u8>>, naf: Seq<i8>) -> Seq<Seq<u8>> {
    let st = cyc_pow_state(a, naf, 0);
    let out = if naf.len() > 0 && naf[0] == 0 {
        Some(decompress_val(st.1.0, st.1.1, st.1.2, st.1.3))
    } else {
        st.2
    };
    if out is Some {
        out.unwrap()
    } else {
        a
    }
}

/// The `(found_one, accumulator)` state of the bit-driven driver after the
/// bits at positions `i` and above of the 64-bit exponent have been
/// processed.
pub open spec fn bls_state(a: Seq<Seq<u8>>, e: u64, i: int) -> (bool, Seq<Seq<u8>>)
    decreases 64 - i,
{
    if i >= 64 {
        (false, fq12_one_val())
    } else {
        let st = bls_state(a, e, i + 1);
        let b = ((e >> (i as u64)) & 1) == 1;
        let tv = if st.0 { cyc_square_bls_val(st.1) } else { st.1 };
        let f = st.0 || b;
        if b {
            (f, fq12_mul_val(tv, a))
        } else {
            (f, tv)
        }
    }
}

/// The bit-driven driver's result: the chain on the parameter's absolute
/// value, conjugated for its sign.
pub open spec fn cyc_pow_bls_val(a: Seq<Seq<u8>>, e: u64) -> Seq<Seq<u8>> {
    crate::fp12::fq12_conj_val(bls_state(a, e, 0).1)
}

impl Fp12Chip {
    /// Non-adjacent-form square-and-multiply over the full group; the
    /// exponent is little-endian. The caller keeps `a` a nonzero element:
    /// a zero divisor in the divide steps is tolerated, not excluded.
    pub fn pow(&self, a: &Fp12Point, exp: Vec<u64>) -> (r: Fp12Point)
        requires
            fp12_wf(a@),
            64 * exp@.len() + 1 <= usize::MAX,
        ensures
            fp12_wf(r@),
            r@ == pow_state(a@, naf_digits(exp@), 0).1,
    {
        let ghost exp_seq = exp@;
        let mut res = a.dup();
        let mut is_started = false;
        let naf = get_naf(exp);

        let mut j = naf.len();
        while j > 0
            invariant
                fp12_wf(a@),
                fp12_wf(res@),
                j <= naf@.len(),
                naf@ == naf_digits(exp_seq),
                digits_ok(naf@),
                (is_started, res@) == pow_state(a@, naf@, j as int),
            decreases j,
        {
            j = j - 1;
            let z = naf[j];
            if is_started {
                res = fq12_mul(&res, &res);
            }
            if z != 0 {
                if is_started {
                    res = if z == 1 {
                        fq12_mul(&res, a)
                    } else {
                        self.devide(&res, a)
                    };
                } else {
                    is_started = true;
                }
            }
        }
        res
    }

    /// The non-adjacent-form driver interleaved with compression: squaring
    /// happens in compressed form and decompression only when a nonzero
    /// digit asks for a full product. The caller keeps `a` a nonzero
    /// cyclotomic-subgroup element.
    pub fn cyclotomic_pow(&self, a: Fp12Point, exp: Vec<u64>) -> (r: Fp12Point)
        requires
            fp12_wf(a@),
            64 * exp@.len() + 1 <= usize::MAX,
        ensures
            fp12_wf(r@),
            r@ == cyc_pow_val(a@, naf_digits(exp@)),
    {
        let ghost exp_seq = exp@;
        let mut compression = self.cyclotomic_compress(&a);
        let mut out: Option<Fp12Point> = None;
        let mut is_started = false;
        let naf = get_naf(exp);

        let mut j = naf.len();
        while j > 0
            invariant
                fp12_wf(a@),
                j <= naf@.len(),
                naf@ == naf_digits(exp_seq),
                digits_ok(naf@),
                compression@.len() == 4,
                compression_wf(seq![compression@[0]@, compression@[1]@, compression@[2]@,
                    compression@[3]@]),
                cyc_pow_state(a@, naf@, j as int).0 == is_started,
                cyc_pow_state(a@, naf@, j as int).1 == (compression@[0]@, compression@[1]@,
                    compression@[2]@, compression@[3]@),
                out is Some <==> cyc_pow_state(a@, naf@, j as int).2 is Some,
                out is Some ==> fp12_wf(out.unwrap()@) && cyc_pow_state(a@, naf@,
                    j as int).2.unwrap() == out.unwrap()@,
            decreases j,
        {
            j = j - 1;
            let z = naf[j];
            if is_started {
                compression = self.cyclotomic_square(&compression);
            }
            if z != 0 {
                if is_started {
                    let mut res = self.cyclotomic_decompress(compression);
                    res = if z == 1 {
                        fq12_mul(&res, &a)
                    } else {
                        self.devide(&res, &a)
                    };
                    compression = self.cyclotomic_compress(&res);
                    out = Some(res);
                } else {
                    is_started = true;
                }
            }
        }
        if naf.len() > 0 && naf[0] == 0 {
            out = Some(self.cyclotomic_decompress(compression));
        }
        match out {
            Some(res) => res,
            None => a,
        }
    }

    /// Bit-driven square-and-multiply for the fixed 64-bit curve
    /// parameter, squaring with the full-domain formula and conjugating
    /// the result for the stored parameter's sign convention. The caller
    /// keeps `a` a nonzero cyclotomic-subgroup element.
    pub fn cyclotomic_pow_bls(&self, a: Fp12Point, exp: u64) -> (r: Fp12Point)
        requires
            fp12_wf(a@),
        ensures
            fp12_wf(r@),
            r@ == cyc_pow_bls_val(a@, exp),
    {
        let mut tv_a = fp12_one();
        let mut found_one = false;

        let mut i: usize = 64;
        while i > 0
            invariant
                fp12_wf(a@),
                fp12_wf(tv_a@),
                i <= 64,
                (found_one, tv_a@) == bls_state(a@, exp, i as int),
            decreases i,
        {
            i = i - 1;
            let b = ((exp >> (i as u64)) & 1) == 1;
            if found_one {
                tv_a = self.cyclotomic_square_bls(&tv_a);
            } else {
                found_one = b;
            }
            if b {
                tv_a = fq12_mul(&tv_a, &a);
            }
        }

        self.conjugate(&tv_a)
    }
}

} // verus!
