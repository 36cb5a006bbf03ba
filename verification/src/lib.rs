//! Final exponentiation for the optimal-ate pairing over BLS12-381.
//!
//! Field elements are carried as canonical big-endian byte encodings; the
//! base- and quadratic-extension arithmetic is delegated to an outside
//! curve library through a narrow trusted interface (`chip`), and every
//! algorithm built on top of it — non-adjacent-form exponent encoding, the
//! Frobenius endomorphism, cyclotomic compression and squaring, the
//! square-and-multiply drivers and the fixed hard-part addition chain — is
//! verified against an exact specification of the values it produces.

pub mod chip;
pub mod compress;
pub mod final_exp;
pub mod fp12;
pub mod fp2;
pub mod frobenius;
pub mod naf;
pub mod pow;
pub mod square_bls;
pub mod tower;
