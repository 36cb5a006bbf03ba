//! Non-adjacent-form exponent encoding.
//!
//! An unsigned exponent, given as little-endian machine words, becomes a
//! little-endian sequence of signed digits in `{-1, 0, 1}` with no two
//! adjacent digits nonzero, and with the same numeric value.

use vstd::prelude::*;

verus! {

/// Two to the `n`th power.
pub open spec fn pow2n(n: nat) -> nat
    decreases n,
{
    if n == 0 {
        1
    } else {
        2 * pow2n((n - 1) as nat)
    }
}

/// Bit `i` of a little-endian word sequence (zero past the end).
pub open spec fn bit_at(s: Seq<u64>, i: int) -> nat {
    if 0 <= i < 64 * s.len() {
        ((s[i / 64] >> ((i % 64) as u64)) & 1) as nat
    } else {
        0
    }
}

/// The value of the bits of `s` from position `i` up, in binary.
pub open spec fn suffix_val(s: Seq<u64>, i: int) -> nat
    decreases 64 * s.len() - i,
{
    if i >= 64 * s.len() {
        0
    } else {
        bit_at(s, i) + 2 * suffix_val(s, i + 1)
    }
}

/// The value of the words of `s` from position `k` up, little-endian.
pub open spec fn limbs_from(s: Seq<u64>, k: int) -> nat
    decreases s.len() - k,
{
    if k >= s.len() {
        0
    } else {
        s[k] as nat + pow2n(64) * limbs_from(s, k + 1)
    }
}

/// The unsigned integer a little-endian word sequence stands for.
pub open spec fn limbs_val(s: Seq<u64>) -> nat {
    limbs_from(s, 0)
}

/// The integer a little-endian signed-digit sequence stands for.
pub open spec fn naf_val(d: Seq<i8>) -> int
    decreases d.len(),
{
    if d.len() == 0 {
        0
    } else {
        d[0] as int + 2 * naf_val(d.drop_first())
    }
}

/// No two adjacent digits are both nonzero.
pub open spec fn non_adjacent(d: Seq<i8>) -> bool {
    forall|j: int| 0 <= j < d.len() - 1 ==> #[trigger] d[j] == 0 || d[j + 1] == 0
}

/// Every digit is `-1`, `0` or `1`.
pub open spec fn digits_ok(d: Seq<i8>) -> bool {
    forall|j: int| 0 <= j < d.len() ==> -1 <= #[trigger] d[j] <= 1
}

/// The digit stream from bit position `i` on, with a pending carry: a zero
/// or double bit gives digit zero; a single bit gives `1`, or `-1` with a
/// carry when the next bit is set too.
pub open spec fn naf_digits_from(s: Seq<u64>, i: int, carry: bool) -> Seq<i8>
    decreases 64 * s.len() - i,
{
    if i >= 64 * s.len() {
        seq![if carry { 1i8 } else { 0i8 }]
    } else {
        let t = bit_at(s, i) + (if carry { 1 as nat } else { 0 as nat });
        if t == 1 {
            if bit_at(s, i + 1) == 1 {
                seq![(-1) as i8] + naf_digits_from(s, i + 1, true)
            } else {
                seq![1i8] + naf_digits_from(s, i + 1, false)
            }
        } else {
            seq![0i8] + naf_digits_from(s, i + 1, t == 2)
        }
    }
}

/// The non-adjacent form of a little-endian word sequence.
pub open spec fn naf_digits(s: Seq<u64>) -> Seq<i8> {
    naf_digits_from(s, 0, false)
}

/// Appending a digit adds its value at the top position.
proof fn lemma_naf_val_push(d: Seq<i8>, x: i8)
    ensures
        naf_val(d.push(x)) == naf_val(d) + (x as int) * pow2n(d.len()),
    decreases d.len(),
{
    if d.len() == 0 {
        assert(d.push(x).drop_first() =~= Seq::<i8>::empty());
        assert(pow2n(0) == 1);
        assert(naf_val(d.push(x)) == x as int + 2 * naf_val(Seq::<i8>::empty()));
    } else {
        assert(d.push(x).drop_first() =~= d.drop_first().push(x));
        lemma_naf_val_push(d.drop_first(), x);
        let rest = d.drop_first();
        assert(pow2n(d.len()) == 2 * pow2n(rest.len()));
        assert(2 * (naf_val(rest) + (x as int) * pow2n(rest.len())) == 2 * naf_val(rest) + (
            x as int) * (2 * pow2n(rest.len()))) by (nonlinear_arith);
    }
}

/// A word shifted right by `j` splits into its low bit and the rest.
proof fn lemma_shr_unfold(x: u64, j: u64)
    requires
        j < 63,
    ensures
        (x >> j) == ((x >> j) & 1) + 2 * (x >> (j + 1) as u64),
{
    assert((x >> j) == ((x >> j) & 1) + 2 * (x >> (j + 1) as u64)) by (bit_vector)
        requires j < 63;
}

/// The top shift leaves a single bit.
proof fn lemma_shr_top(x: u64)
    ensures
        (x >> 63u64) == ((x >> 63u64) & 1),
{
    assert((x >> 63u64) == ((x >> 63u64) & 1)) by (bit_vector);
}

/// A shift by zero is the word itself.
proof fn lemma_shr_zero(x: u64)
    ensures
        (x >> 0u64) == x,
{
    assert((x >> 0u64) == x) by (bit_vector);
}

/// The bit-suffix value from bit `64k + j` is the shifted `k`th word plus
/// the words above it, scaled.
proof fn lemma_limb_bits(s: Seq<u64>, k: int, j: int)
    requires
        0 <= k < s.len(),
        0 <= j <= 64,
    ensures
        suffix_val(s, 64 * k + j) == (if j == 64 { 0 } else { (s[k] >> (j as u64)) as nat })
            + pow2n((64 - j) as nat) * suffix_val(s, 64 * (k + 1)),
    decreases 64 - j,
{
    let upper = suffix_val(s, 64 * (k + 1));
    if j == 64 {
        assert(pow2n(0) == 1);
    } else {
        lemma_limb_bits(s, k, j + 1);
        let i = 64 * k + j;
        assert((64 * k + j) / 64 == k && (64 * k + j) % 64 == j) by (nonlinear_arith)
            requires 0 <= j < 64, 0 <= k;
        assert(i < 64 * s.len()) by (nonlinear_arith)
            requires k < s.len(), j < 64, i == 64 * k + j;
        assert(suffix_val(s, i) == bit_at(s, i) + 2 * suffix_val(s, i + 1));
        assert(bit_at(s, i) == ((s[k] >> (j as u64)) & 1) as nat);
        let x = s[k];
        if j == 63 {
            lemma_shr_top(x);
            assert(suffix_val(s, 64 * (k + 1)) == upper);
            assert(suffix_val(s, i + 1) == 0 + pow2n(0) * upper);
            assert(suffix_val(s, i) == ((x >> 63u64) & 1) as nat + 2 * (0 + 1 * upper));
            assert(pow2n(1) == 2);
            assert(suffix_val(s, i) == (x >> 63u64) as nat + pow2n(1) * upper)
                by (nonlinear_arith)
                requires
                    suffix_val(s, i) == ((x >> 63u64) & 1) as nat + 2 * (0 + 1 * upper),
                    (x >> 63u64) == ((x >> 63u64) & 1),
                    pow2n(1) == 2;
        } else {
            lemma_shr_unfold(x, j as u64);
            let lo = ((x >> (j as u64)) & 1) as nat;
            let hi = (x >> ((j + 1) as u64)) as nat;
            assert(pow2n((64 - j) as nat) == 2 * pow2n((63 - j) as nat));
            assert(suffix_val(s, i) == lo + 2 * (hi + pow2n((63 - j) as nat) * upper));
            assert(lo + 2 * (hi + pow2n((63 - j) as nat) * upper) == (lo + 2 * hi) + (2
                * pow2n((63 - j) as nat)) * upper) by (nonlinear_arith);
            assert((x >> (j as u64)) as nat == lo + 2 * hi);
        }
    }
}

/// The bit-suffix value from bit `64k` equals the word value from word
/// `k`.
proof fn lemma_bits_to_limbs(s: Seq<u64>, k: int)
    requires
        0 <= k <= s.len(),
    ensures
        suffix_val(s, 64 * k) == limbs_from(s, k),
    decreases s.len() - k,
{
    if k == s.len() {
        assert(64 * k >= 64 * s.len());
    } else {
        lemma_bits_to_limbs(s, k + 1);
        lemma_limb_bits(s, k, 0);
        lemma_shr_zero(s[k]);
    }
}


/// Each bit is zero or one.
proof fn lemma_bit_at_bool(s: Seq<u64>, i: int)
    ensures
        bit_at(s, i) == 0 || bit_at(s, i) == 1,
{
    if 0 <= i < 64 * s.len() {
        let x = s[i / 64];
        let sh = (i % 64) as u64;
        assert(((x >> sh) & 1) == 0 || ((x >> sh) & 1) == 1) by (bit_vector);
    }
}

/// A stream begun with a pending carry always holds a nonzero digit.
proof fn lemma_carry_stream_nonzero(s: Seq<u64>, i: int)
    ensures
        exists|j: int| 0 <= j < naf_digits_from(s, i, true).len()
            && #[trigger] naf_digits_from(s, i, true)[j] != 0,
    decreases 64 * s.len() - i,
{
    let d = naf_digits_from(s, i, true);
    if i >= 64 * s.len() {
        assert(d[0] != 0);
    } else {
        lemma_bit_at_bool(s, i);
        if bit_at(s, i) == 0 {
            assert(d[0] != 0);
        } else {
            lemma_carry_stream_nonzero(s, i + 1);
            let rest = naf_digits_from(s, i + 1, true);
            let j = choose|j: int| 0 <= j < rest.len() && #[trigger] rest[j] != 0;
            assert(d == seq![0i8] + rest);
            assert(d[j + 1] == rest[j]);
            assert(d[j + 1] != 0);
        }
    }
}

/// Above every `-1` digit of the stream stands another nonzero digit: the
/// most significant nonzero digit is always `1`, so a square-and-multiply
/// driver scanning from the top starts on a plain multiplication.
pub proof fn lemma_naf_top_digit_positive(s: Seq<u64>, i: int, carry: bool)
    ensures
        forall|j: int| 0 <= j < naf_digits_from(s, i, carry).len()
            && #[trigger] naf_digits_from(s, i, carry)[j] == -1
            ==> exists|k: int| j < k < naf_digits_from(s, i, carry).len()
                && #[trigger] naf_digits_from(s, i, carry)[k] != 0,
    decreases 64 * s.len() - i,
{
    let d = naf_digits_from(s, i, carry);
    if i >= 64 * s.len() {
        assert(forall|j: int| 0 <= j < d.len() ==> #[trigger] d[j] != -1);
    } else {
        let t = bit_at(s, i) + (if carry { 1 as nat } else { 0 as nat });
        let c2 = if t == 1 { bit_at(s, i + 1) == 1 } else { t == 2 };
        let rest = naf_digits_from(s, i + 1, c2);
        assert(d.len() == 1 + rest.len());
        lemma_naf_top_digit_positive(s, i + 1, c2);
        assert forall|j: int| 0 <= j < d.len() && #[trigger] d[j] == -1 implies exists|k: int|
            j < k < d.len() && #[trigger] d[k] != 0 by {
            if j == 0 {
                assert(t == 1 && bit_at(s, i + 1) == 1 && c2);
                lemma_carry_stream_nonzero(s, i + 1);
                let jr = choose|jr: int| 0 <= jr < rest.len() && #[trigger] rest[jr] != 0;
                assert(d[jr + 1] == rest[jr]);
                assert(0 < jr + 1 < d.len() && d[jr + 1] != 0);
            } else {
                assert(rest[j - 1] == d[j]);
                let kr = choose|kr: int| j - 1 < kr < rest.len() && #[trigger] rest[kr] != 0;
                assert(d[kr + 1] == rest[kr]);
                assert(j < kr + 1 < d.len() && d[kr + 1] != 0);
            }
        }
    }
}

/// The streamed digits of an exponent: same value, digits in `{-1, 0, 1}`,
/// no two adjacent digits nonzero.
pub fn get_naf(exp: Vec<u64>) -> (r: Vec<i8>)
    requires
        64 * exp@.len() + 1 <= usize::MAX,
    ensures
        r@ == naf_digits(exp@),
        r@.len() == 64 * exp@.len() + 1,
        naf_val(r@) == limbs_val(exp@),
        digits_ok(r@),
        non_adjacent(r@),
{
    let n = exp.len();
    let total = 64 * n;
    let mut digits: Vec<i8> = Vec::new();
    let mut carry: bool = false;
    let mut i: usize = 0;
    proof {
        assert(pow2n(0) == 1);
    }
    while i < total
        invariant
            total == 64 * exp@.len(),
            i <= total,
            digits@.len() == i,
            digits@ + naf_digits_from(exp@, i as int, carry) == naf_digits(exp@),
            naf_val(digits@) + pow2n(i as nat) * ((if carry { 1 as int } else { 0 as int })
                + suffix_val(exp@, i as int)) == suffix_val(exp@, 0),
            digits_ok(digits@),
            non_adjacent(digits@),
            i > 0 && digits@[i - 1] != 0 ==> (bit_at(exp@, i as int) + (
                if carry { 1 as nat } else { 0 as nat })) % 2 == 0,
        decreases total - i,
    {
        let limb = exp[i / 64];
        let sh: u64 = (i % 64) as u64;
        let b: u64 = (limb >> sh) & 1;
        proof {
            assert(bit_at(exp@, i as int) == b as nat);
            assert(((limb >> sh) & 1) == 0 || ((limb >> sh) & 1) == 1) by (bit_vector);
        }
        let t: u64 = b + (if carry { 1 } else { 0 });
        let ghost old_digits = digits@;
        let ghost old_carry = carry;
        let d: i8;
        if t == 1 {
            let nb: u64 = if i + 1 < total {
                let nlimb = exp[(i + 1) / 64];
                let nsh: u64 = ((i + 1) % 64) as u64;
                proof {
                    assert(((nlimb >> nsh) & 1) == 0 || ((nlimb >> nsh) & 1) == 1)
                        by (bit_vector);
                }
                (nlimb >> nsh) & 1
            } else {
                0
            };
            proof {
                assert(bit_at(exp@, i as int + 1) == nb as nat);
            }
            if nb == 1 {
                d = -1;
                carry = true;
            } else {
                d = 1;
                carry = false;
            }
        } else {
            d = 0;
            carry = t == 2;
        }
        digits.push(d);
        i = i + 1;
        proof {
            let s = exp@;
            let ii = i as int - 1;
            lemma_naf_val_push(old_digits, d);
            assert(suffix_val(s, ii) == bit_at(s, ii) + 2 * suffix_val(s, ii + 1));
            let c0: int = if old_carry { 1 } else { 0 };
            let c1: int = if carry { 1 } else { 0 };
            let p = pow2n(ii as nat);
            assert(pow2n(i as nat) == 2 * p);
            assert(bit_at(s, ii) + c0 == d + 2 * c1);
            assert(p * ((bit_at(s, ii) + c0) + 2 * suffix_val(s, ii + 1)) == d * p + (2 * p) * (
                c1 + suffix_val(s, ii + 1))) by (nonlinear_arith)
                requires
                    bit_at(s, ii) + c0 == d + 2 * c1,
            ;
            assert(digits@ + naf_digits_from(s, i as int, carry) == naf_digits(s)) by {
                assert(naf_digits_from(s, ii, old_carry) == seq![d]
                    + naf_digits_from(s, ii + 1, carry));
                assert(old_digits + (seq![d] + naf_digits_from(s, i as int, carry))
                    =~= digits@ + naf_digits_from(s, i as int, carry));
            }
            assert(non_adjacent(digits@)) by {
                assert(forall|j: int| 0 <= j < old_digits.len() ==> digits@[j]
                    == old_digits[j]);
            }
        }
    }
    let last: i8 = if carry {
        1
    } else {
        0
    };
    let ghost old_digits = digits@;
    digits.push(last);
    proof {
        let s = exp@;
        lemma_naf_val_push(old_digits, last);
        assert(suffix_val(s, total as int) == 0);
        assert(naf_digits_from(s, total as int, carry) =~= seq![last]);
        assert(old_digits + seq![last] =~= digits@);
        lemma_bits_to_limbs(s, 0);
        assert(pow2n(total as nat) * ((if carry { 1 as int } else { 0 as int }) + 0) == (
            if carry { 1 as int } else { 0 as int }) * pow2n(total as nat)) by (nonlinear_arith);
    }
    digits
}

} // verus!
