//! End-to-end tests against the outside curve library's own arithmetic.

use bls_final_exp::chip::fp_load;
use bls_final_exp::fp12::{fq12_inv, fq12_mul};
use bls_final_exp::naf::get_naf;
use bls_final_exp::pow::BLS_X;
use bls_final_exp::tower::{Fp, Fp12Chip, Fp12Point, Fp2Point};
use halo2curves::bls12381::{multi_miller_loop, Fq, Fq12, Fq2, Fq6, G1Affine, G2Affine};
use halo2curves::ff::Field;
use halo2curves::ff_ext::ExtField;
use halo2curves::group::prime::PrimeCurveAffine;
use num_bigint::{BigInt, BigUint};

fn fp_of(x: &Fq) -> Fp {
    Fp { bytes: x.to_bytes().to_vec() }
}

fn fq_of(p: &Fp) -> Fq {
    let arr: [u8; 48] = p.bytes[..].try_into().unwrap();
    Option::<Fq>::from(Fq::from_bytes(&arr)).unwrap()
}

fn fp2_of(x: &Fq2) -> Fp2Point {
    Fp2Point { c0: fp_of(x.c0()), c1: fp_of(x.c1()) }
}

fn fp12_of(f: &Fq12) -> Fp12Point {
    let ws = [
        *f.c0().c0(),
        *f.c1().c0(),
        *f.c0().c1(),
        *f.c1().c1(),
        *f.c0().c2(),
        *f.c1().c2(),
    ];
    let mut c = Vec::new();
    for w in ws.iter() {
        c.push(fp_of(w.c0()));
    }
    for w in ws.iter() {
        c.push(fp_of(w.c1()));
    }
    Fp12Point { c }
}

fn fq12_of(p: &Fp12Point) -> Fq12 {
    let g: Vec<Fq> = p.c.iter().map(fq_of).collect();
    Fq12::new(
        Fq6::new(
            Fq2::new(g[0], g[6]),
            Fq2::new(g[2], g[8]),
            Fq2::new(g[4], g[10]),
        ),
        Fq6::new(
            Fq2::new(g[1], g[7]),
            Fq2::new(g[3], g[9]),
            Fq2::new(g[5], g[11]),
        ),
    )
}

fn assert_matches(p: &Fp12Point, f: &Fq12, what: &str) {
    let q = fq12_of(p);
    assert_eq!(q, *f, "mismatch: {}", what);
}

fn miller() -> Fq12 {
    multi_miller_loop(&[(&G1Affine::generator(), &G2Affine::generator())])
}

/// The easy part of the final exponentiation, computed with the outside
/// library alone: a cyclotomic-subgroup element.
fn easy(m: &Fq12) -> Fq12 {
    let mut f1 = *m;
    f1.conjugate();
    let f2 = f1 * Option::<Fq12>::from(m.invert()).unwrap();
    let mut f3 = f2;
    f3.frobenius_map(2);
    f3 * f2
}

/// The full final-exponentiation exponent `3·(q^12 - 1)/r` as little-endian
/// words.
fn exponent_limbs() -> Vec<u64> {
    let q = BigUint::parse_bytes(
        b"1a0111ea397fe69a4b1ba7b6434bacd764774b84f38512bf6730d2a0f6b0f6241eabfffeb153ffffb9feffffffffaaab",
        16,
    )
    .unwrap();
    let r = BigUint::parse_bytes(
        b"73eda753299d7d483339d80809a1d80553bda402fffe5bfeffffffff00000001",
        16,
    )
    .unwrap();
    let d = (q.pow(12) - 1u32) / r * 3u32;
    d.to_u64_digits()
}

fn naf_value(digits: &[i8]) -> BigInt {
    let mut acc = BigInt::from(0);
    for &d in digits.iter().rev() {
        acc = acc * 2 + BigInt::from(d);
    }
    acc
}

fn limbs_value(limbs: &[u64]) -> BigInt {
    let mut acc = BigInt::from(0);
    for &l in limbs.iter().rev() {
        acc = (acc << 64) + BigInt::from(l);
    }
    acc
}

fn check_naf_shape(digits: &[i8]) {
    for &d in digits {
        assert!((-1..=1).contains(&d));
    }
    for w in digits.windows(2) {
        assert!(w[0] == 0 || w[1] == 0, "adjacent nonzero digits");
    }
}

#[test]
fn naf_round_trip_small() {
    let naf = get_naf(vec![7]);
    assert_eq!(naf.len(), 65);
    assert_eq!(naf_value(&naf), BigInt::from(7));
    check_naf_shape(&naf);
}

#[test]
fn naf_round_trip_multiword() {
    let exp = vec![0xffffffffffffffffu64, 0x1234567890abcdef];
    let naf = get_naf(exp.clone());
    assert_eq!(naf.len(), 129);
    assert_eq!(naf_value(&naf), limbs_value(&exp));
    check_naf_shape(&naf);
}

#[test]
fn naf_round_trip_exhaustive_small() {
    for e in 0u64..300 {
        let naf = get_naf(vec![e]);
        assert_eq!(naf_value(&naf), BigInt::from(e), "exponent {}", e);
        check_naf_shape(&naf);
    }
}

#[test]
fn naf_of_curve_parameter() {
    let naf = get_naf(vec![BLS_X]);
    assert_eq!(naf_value(&naf), BigInt::from(BLS_X));
    check_naf_shape(&naf);
}

#[test]
fn frobenius_power_zero_is_identity() {
    let chip = Fp12Chip::new();
    let m = miller();
    let x = fp12_of(&m);
    let r = chip.frobenius_map(&x, 0);
    assert_matches(&r, &m, "frobenius power 0");
    let r12 = chip.frobenius_map(&x, 12);
    assert_matches(&r12, &m, "frobenius power 12");
}

#[test]
fn frobenius_matches_reference() {
    let chip = Fp12Chip::new();
    let m = miller();
    let x = fp12_of(&m);
    for power in [1usize, 2, 3, 6, 11] {
        let mine = chip.frobenius_map(&x, power);
        let mut expect = m;
        expect.frobenius_map(power);
        assert_matches(&mine, &expect, "frobenius power");
    }
}

#[test]
fn frobenius_composition() {
    let chip = Fp12Chip::new();
    let m = miller();
    let x = fp12_of(&m);
    let a = chip.frobenius_map(&chip.frobenius_map(&x, 7), 8);
    let b = chip.frobenius_map(&x, 3);
    assert_eq!(fq12_of(&a), fq12_of(&b), "frobenius composition 7 + 8 = 3 mod 12");
    let c = chip.frobenius_map(&chip.frobenius_map(&x, 1), 2);
    let d = chip.frobenius_map(&x, 3);
    assert_eq!(fq12_of(&c), fq12_of(&d), "frobenius composition 1 + 2 = 3");
}

#[test]
fn compression_round_trip() {
    let chip = Fp12Chip::new();
    let t2 = easy(&miller());
    let p = fp12_of(&t2);
    let back = chip.cyclotomic_decompress(chip.cyclotomic_compress(&p));
    assert_matches(&back, &t2, "compression round trip");
}

#[test]
fn compressed_squaring_matches_multiplication() {
    let chip = Fp12Chip::new();
    let t2 = easy(&miller());
    let p = fp12_of(&t2);
    let squared = chip.cyclotomic_decompress(chip.cyclotomic_square(&chip.cyclotomic_compress(&p)));
    let expect = t2 * t2;
    assert_matches(&squared, &expect, "compressed squaring");
}

#[test]
fn full_domain_squaring_matches_multiplication() {
    let chip = Fp12Chip::new();
    let t2 = easy(&miller());
    let p = fp12_of(&t2);
    let squared = chip.cyclotomic_square_bls(&p);
    let expect = t2 * t2;
    assert_matches(&squared, &expect, "full-domain cyclotomic squaring");
}

#[test]
fn pow_matches_reference() {
    let chip = Fp12Chip::new();
    let m = miller();
    let x = fp12_of(&m);
    let exp = vec![0xdeadbeefcafebabeu64, 0xff];
    let mine = chip.pow(&x, exp.clone());
    let expect = m.pow_vartime(&exp);
    assert_matches(&mine, &expect, "plain pow");
}

#[test]
fn pow_of_zero_exponent_returns_input() {
    let chip = Fp12Chip::new();
    let m = miller();
    let x = fp12_of(&m);
    let mine = chip.pow(&x, vec![0]);
    assert_matches(&mine, &m, "pow with all-zero exponent hands the input back");
}

#[test]
fn cyclotomic_pow_matches_reference() {
    let chip = Fp12Chip::new();
    let t2 = easy(&miller());
    let p = fp12_of(&t2);
    let exp = vec![123456789u64];
    let mine = chip.cyclotomic_pow(p, exp.clone());
    let expect = t2.pow_vartime(&exp);
    assert_matches(&mine, &expect, "cyclotomic pow");
}

#[test]
fn cyclotomic_pow_even_exponent() {
    let chip = Fp12Chip::new();
    let t2 = easy(&miller());
    let p = fp12_of(&t2);
    let exp = vec![4u64];
    let mine = chip.cyclotomic_pow(p, exp.clone());
    let expect = t2.pow_vartime(&exp);
    assert_matches(&mine, &expect, "cyclotomic pow with trailing zero digit");
}

#[test]
fn cyclotomic_pow_bls_is_conjugated_power() {
    let chip = Fp12Chip::new();
    let t2 = easy(&miller());
    for e in [BLS_X, 5u64] {
        let p = fp12_of(&t2);
        let mine = chip.cyclotomic_pow_bls(p, e);
        let mut expect = t2.pow_vartime([e]);
        expect.conjugate();
        assert_matches(&mine, &expect, "bls pow");
    }
}

#[test]
fn devide_matches_inverse_multiplication() {
    let chip = Fp12Chip::new();
    let m = miller();
    let t2 = easy(&m);
    let a = fp12_of(&m);
    let b = fp12_of(&t2);
    let mine = chip.devide(&a, &b);
    let expect = m * Option::<Fq12>::from(t2.invert()).unwrap();
    assert_matches(&mine, &expect, "division");
}

#[test]
fn final_exp_of_identity_is_identity() {
    let chip = Fp12Chip::new();
    let one = Fq12::one();
    let r = chip.final_exp(fp12_of(&one));
    assert_matches(&r, &one, "final exponentiation of one");
}

#[test]
fn final_exp_matches_reference_pairing() {
    let chip = Fp12Chip::new();
    let m = miller();
    let mine = chip.final_exp(fp12_of(&m));
    let expect = m.pow_vartime(&exponent_limbs());
    assert_matches(&mine, &expect, "final exponentiation of a Miller-loop output");
}

#[test]
fn final_exp_on_image_matches_reference() {
    let chip = Fp12Chip::new();
    let m = miller();
    let a = m.pow_vartime(&exponent_limbs());
    let mine = chip.final_exp(fp12_of(&a));
    let expect = a.pow_vartime(&exponent_limbs());
    assert_matches(&mine, &expect, "final exponentiation on its own image");
}

#[test]
fn fp_load_accepts_canonical_and_rejects_others() {
    let x = Fq::from(12345u64);
    let loaded = fp_load(x.to_bytes().to_vec()).unwrap();
    assert_eq!(fq_of(&loaded), x);
    assert!(fp_load(vec![0xffu8; 48]).is_none(), "a value above the modulus");
    assert!(fp_load(vec![0u8; 47]).is_none(), "a short byte string");
}

#[test]
fn compress_extracts_the_right_slots() {
    let chip = Fp12Chip::new();
    let t2 = easy(&miller());
    let p = fp12_of(&t2);
    let comp = chip.cyclotomic_compress(&p);
    assert_eq!(comp.len(), 4);
    let g2 = fp2_of(&Fq2::new(fq_of(&p.c[1]), fq_of(&p.c[7])));
    assert_eq!(comp[0].c0.bytes, g2.c0.bytes);
    assert_eq!(comp[0].c1.bytes, g2.c1.bytes);
}

#[test]
fn fq12_mul_matches_reference() {
    let m = miller();
    let t2 = easy(&m);
    let mine = fq12_mul(&fp12_of(&m), &fp12_of(&t2));
    let expect = m * t2;
    assert_matches(&mine, &expect, "degree-12 multiplication");
}

#[test]
fn fq12_inv_matches_reference() {
    let m = miller();
    let mine = fq12_inv(&fp12_of(&m));
    let expect = Option::<Fq12>::from(m.invert()).unwrap();
    assert_matches(&mine, &expect, "degree-12 inversion");
}

#[test]
fn conjugate_matches_reference() {
    let chip = Fp12Chip::new();
    let m = miller();
    let mine = chip.conjugate(&fp12_of(&m));
    let mut expect = m;
    expect.conjugate();
    assert_matches(&mine, &expect, "degree-12 conjugation");
}
