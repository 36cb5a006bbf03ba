//! The field-tower value types.
//!
//! A base-field element is carried as its canonical 48-byte big-endian
//! encoding; a degree-2 element is an ordered pair of base elements; a
//! degree-12 element is an ordered sequence of 12 base coefficients in
//! tower layout: position `k` and position `k + 6` are the real and
//! imaginary parts of the degree-2 coefficient of `w^k`.

use vstd::prelude::*;

verus! {

/// The BLS12-381 base-field modulus.
pub open spec fn q_nat() -> nat {
    0x1a0111ea397fe69a4b1ba7b6434bacd764774b84f38512bf6730d2a0f6b0f6241eabfffeb153ffffb9feffffffffaaabnat
}

/// The unsigned integer a big-endian byte string stands for.
pub open spec fn be_nat(s: Seq<u8>) -> nat
    decreases s.len(),
{
    if s.len() == 0 {
        0
    } else {
        be_nat(s.drop_last()) * 256 + s.last() as nat
    }
}

/// The canonical encoding of the base-field zero.
pub open spec fn fq_zero_val() -> Seq<u8> {
    Seq::new(48, |i: int| 0u8)
}

/// The canonical encoding of the base-field one.
pub open spec fn fq_one_val() -> Seq<u8> {
    Seq::new(48, |i: int| if i == 47 { 1u8 } else { 0u8 })
}

pub open spec fn fq2_zero_val() -> Seq<Seq<u8>> {
    seq![fq_zero_val(), fq_zero_val()]
}

pub open spec fn fq2_one_val() -> Seq<Seq<u8>> {
    seq![fq_one_val(), fq_zero_val()]
}

/// A well-formed base element: 48 bytes, canonical (below the modulus).
pub open spec fn fp_wf(s: Seq<u8>) -> bool {
    s.len() == 48 && be_nat(s) < q_nat()
}

/// A well-formed degree-2 element.
pub open spec fn fp2_wf(v: Seq<Seq<u8>>) -> bool {
    v.len() == 2 && fp_wf(v[0]) && fp_wf(v[1])
}

/// A well-formed degree-12 element.
pub open spec fn fp12_wf(v: Seq<Seq<u8>>) -> bool {
    v.len() == 12 && forall|i: int| 0 <= i < 12 ==> fp_wf(#[trigger] v[i])
}

/// A base-field element.
pub struct Fp {
    pub bytes: Vec<u8>,
}

impl View for Fp {
    type V = Seq<u8>;

    open spec fn view(&self) -> Seq<u8> {
        self.bytes@
    }
}

/// A degree-2 extension element `c0 + c1·u`.
pub struct Fp2Point {
    pub c0: Fp,
    pub c1: Fp,
}

impl View for Fp2Point {
    type V = Seq<Seq<u8>>;

    open spec fn view(&self) -> Seq<Seq<u8>> {
        seq![self.c0@, self.c1@]
    }
}

/// A degree-12 extension element in tower layout.
pub struct Fp12Point {
    pub c: Vec<Fp>,
}

impl View for Fp12Point {
    type V = Seq<Seq<u8>>;

    open spec fn view(&self) -> Seq<Seq<u8>> {
        Seq::new(self.c@.len(), |i: int| self.c@[i]@)
    }
}

impl Fp {
    /// A copy of the element.
    pub fn dup(&self) -> (r: Fp)
        ensures
            r@ == self@,
    {
        let mut b: Vec<u8> = Vec::new();
        let mut i: usize = 0;
        while i < self.bytes.len()
            invariant
                i <= self.bytes.len(),
                b@ == self.bytes@.subrange(0, i as int),
            decreases self.bytes.len() - i,
        {
            b.push(self.bytes[i]);
            assert(b@ == self.bytes@.subrange(0, i + 1));
            i = i + 1;
        }
        assert(b@ == self.bytes@);
        Fp { bytes: b }
    }
}

impl Fp2Point {
    /// A copy of the element.
    pub fn dup(&self) -> (r: Fp2Point)
        ensures
            r@ == self@,
    {
        let r = Fp2Point { c0: self.c0.dup(), c1: self.c1.dup() };
        assert(r@ == self@);
        r
    }
}

impl Fp12Point {
    /// A copy of the element.
    pub fn dup(&self) -> (r: Fp12Point)
        ensures
            r@ == self@,
    {
        let mut c: Vec<Fp> = Vec::new();
        let mut i: usize = 0;
        while i < self.c.len()
            invariant
                i <= self.c.len(),
                c@.len() == i,
                forall|j: int| 0 <= j < i ==> c@[j]@ == self.c@[j]@,
            decreases self.c.len() - i,
        {
            c.push(self.c[i].dup());
            i = i + 1;
        }
        let r = Fp12Point { c };
        assert(r@ =~= self@);
        r
    }
}

/// The 48 zero bytes.
pub fn fp_zero() -> (r: Fp)
    ensures
        r@ == fq_zero_val(),
{
    let b: Vec<u8> = vec![0u8; 48];
    assert(b@ =~= fq_zero_val());
    Fp { bytes: b }
}

/// Whether two byte strings are equal.
pub fn eq_bytes(a: &Vec<u8>, b: &Vec<u8>) -> (r: bool)
    ensures
        r == (a@ == b@),
{
    if a.len() != b.len() {
        assert(a@ != b@);
        return false;
    }
    let mut i: usize = 0;
    while i < a.len()
        invariant
            i <= a.len(),
            a@.len() == b@.len(),
            forall|j: int| 0 <= j < i ==> a@[j] == b@[j],
        decreases a.len() - i,
    {
        if a[i] != b[i] {
            return false;
        }
        i = i + 1;
    }
    assert(a@ =~= b@);
    true
}

/// Whether a well-formed base element is the field zero.
pub fn fp_is_zero(x: &Fp) -> (r: bool)
    requires
        x@.len() == 48,
    ensures
        r == (x@ == fq_zero_val()),
{
    let mut i: usize = 0;
    while i < x.bytes.len()
        invariant
            i <= x.bytes.len(),
            x@.len() == 48,
            forall|j: int| 0 <= j < i ==> x.bytes@[j] == 0u8,
        decreases x.bytes.len() - i,
    {
        if x.bytes[i] != 0 {
            assert(x@[i as int] != fq_zero_val()[i as int]);
            return false;
        }
        i = i + 1;
    }
    assert(x@ =~= fq_zero_val());
    true
}

/// Whether a well-formed degree-2 element is the field zero.
pub fn fp2_is_zero(x: &Fp2Point) -> (r: bool)
    requires
        fp2_wf(x@),
    ensures
        r == (x@ == fq2_zero_val()),
{
    let z0 = fp_is_zero(&x.c0);
    let z1 = fp_is_zero(&x.c1);
    if z0 && z1 {
        assert(x@ =~= fq2_zero_val());
        true
    } else {
        assert(x@ != fq2_zero_val());
        false
    }
}

/// Constant-time-style select: the first element where `flag` holds, else
/// the second.
pub fn fp2_select(a: Fp2Point, b: Fp2Point, flag: bool) -> (r: Fp2Point)
    ensures
        r@ == (if flag {
            a@
        } else {
            b@
        }),
{
    if flag {
        a
    } else {
        b
    }
}

/// The degree-12 arithmetic gadget collection.
pub struct Fp12Chip;

impl Fp12Chip {
    pub fn new() -> (r: Fp12Chip) {
        Fp12Chip
    }
}

} // verus!
