//! Trusted boundary to the elliptic-curve algebra and the transcript.
//!
//! The protocol consumes the Ristretto group, its scalar field and the
//! Fiat-Shamir transcript as an opaque algebra: every call into
//! `curve25519_dalek` or `merlin` goes through one of the wrappers below,
//! and nothing else in the crate touches those crates.

use vstd::prelude::*;
use curve25519_dalek::scalar::Scalar;
use curve25519_dalek::ristretto::{CompressedRistretto, RistrettoPoint};
use curve25519_dalek::traits::MultiscalarMul;
use merlin::Transcript;

verus! {

#[verifier::external_type_specification]
#[verifier::external_body]
pub struct ExScalar(Scalar);

#[verifier::external_type_specification]
#[verifier::external_body]
pub struct ExRistrettoPoint(RistrettoPoint);

#[verifier::external_type_specification]
#[verifier::external_body]
pub struct ExTranscript(Transcript);

/// Relies on `Scalar: Clone`, which is derived beside `Copy`: a clone is the
/// same value.
pub assume_specification[ <Scalar as core::clone::Clone>::clone ](a: &Scalar) -> (r: Scalar)
    ensures
        r == *a,
;

/// Relies on `Scalar::from::<u64>`: the field element with that integer value.
#[verifier::external_body]
pub(crate) fn sc_from_u64(x: u64) -> Scalar {
    Scalar::from(x)
}

/// Relies on `Scalar: Add`: addition modulo the Ristretto group order.
#[verifier::external_body]
pub(crate) fn sc_add(a: &Scalar, b: &Scalar) -> Scalar {
    a + b
}

/// Relies on `Scalar: Sub`: subtraction modulo the group order.
#[verifier::external_body]
pub(crate) fn sc_sub(a: &Scalar, b: &Scalar) -> Scalar {
    a - b
}

/// Relies on `Scalar: Mul`: multiplication modulo the group order.
#[verifier::external_body]
pub(crate) fn sc_mul(a: &Scalar, b: &Scalar) -> Scalar {
    a * b
}

/// Relies on `Scalar: Neg`: negation modulo the group order.
#[verifier::external_body]
pub(crate) fn sc_neg(a: &Scalar) -> Scalar {
    -a
}

/// Relies on `Scalar::invert`: the multiplicative inverse of a nonzero
/// scalar, computed by exponentiation; it never panics.
#[verifier::external_body]
pub(crate) fn sc_invert(a: &Scalar) -> Scalar {
    a.invert()
}

/// Relies on `Scalar: PartialEq`, which compares the canonical 32-byte
/// encodings held inside the two values; a `Scalar` always carries its
/// canonical encoding, so this is equality of the field elements.
#[verifier::external_body]
pub(crate) fn sc_eq(a: &Scalar, b: &Scalar) -> (r: bool)
    ensures
        r == (a == b),
{
    a == b
}

/// Relies on `Scalar::to_bytes`: the canonical little-endian encoding.  A
/// `Scalar` always holds a reduced value, so its encoding is canonical.
#[verifier::external_body]
pub(crate) fn sc_to_bytes(a: &Scalar) -> (r: [u8; 32])
    ensures
        scalar_canonical(r@),
{
    a.to_bytes()
}

/// The value of a byte string read as a little-endian integer.
pub open spec fn le_bytes_val(b: Seq<u8>) -> nat
    decreases b.len(),
{
    if b.len() == 0 {
        0
    } else {
        b[0] as nat + 256 * le_bytes_val(b.drop_first())
    }
}

/// The order of the Ristretto group, the modulus of its scalar field:
/// `2^252 + 27742317777372353535851937790883648493`.
pub open spec fn group_order() -> nat {
    vstd::arithmetic::power2::pow2(252) + 27742317777372353535851937790883648493
}

/// Whether 32 bytes are the canonical encoding of a scalar: a
/// little-endian integer below the group order.
pub open spec fn scalar_canonical(b: Seq<u8>) -> bool {
    le_bytes_val(b) < group_order()
}

/// Relies on `Scalar::from_canonical_bytes`: `Some` exactly when the bytes
/// are a canonical encoding, i.e. a little-endian integer below the group
/// order (which also forces the top bit clear).
#[verifier::external_body]
pub(crate) fn sc_from_canonical(b: &[u8; 32]) -> (r: Option<Scalar>)
    ensures
        r is Some <==> scalar_canonical(b@),
{
    Scalar::from_canonical_bytes(*b).into()
}

/// Relies on `Scalar::from_bytes_mod_order_wide`: a 64-byte string reduced
/// modulo the group order.
#[verifier::external_body]
pub(crate) fn sc_from_wide(b: &[u8; 64]) -> Scalar {
    Scalar::from_bytes_mod_order_wide(b)
}

/// Relies on `Scalar::random` seeded from the operating system's entropy
/// source: a fresh, uniformly distributed scalar.  Two calls may return
/// different values, so nothing is promised of the result.
#[verifier::external_body]
pub(crate) fn sc_random() -> Scalar {
    Scalar::random(&mut rand_core::OsRng)
}

/// Relies on `RISTRETTO_BASEPOINT_POINT`: the group's standard basepoint.
#[verifier::external_body]
pub(crate) fn pt_basepoint() -> RistrettoPoint {
    curve25519_dalek::constants::RISTRETTO_BASEPOINT_POINT
}

/// Relies on `RistrettoPoint: Add`: the group operation.
#[verifier::external_body]
pub(crate) fn pt_add(a: &RistrettoPoint, b: &RistrettoPoint) -> RistrettoPoint {
    a + b
}

/// Relies on `RistrettoPoint: Mul<Scalar>`: scalar multiplication.
#[verifier::external_body]
pub(crate) fn pt_mul(s: &Scalar, p: &RistrettoPoint) -> RistrettoPoint {
    s * p
}

/// Relies on `RistrettoPoint: PartialEq`: constant-time equality of the two
/// group elements.
#[verifier::external_body]
pub(crate) fn pt_eq(a: &RistrettoPoint, b: &RistrettoPoint) -> bool {
    a == b
}

/// Relies on `RistrettoPoint::multiscalar_mul`: the sum of each point scaled
/// by its scalar.  It asserts that the two lengths match, so equal lengths
/// are required here.
#[verifier::external_body]
pub(crate) fn pt_msm(scalars: &Vec<Scalar>, points: &Vec<RistrettoPoint>) -> RistrettoPoint
    requires
        scalars@.len() == points@.len(),
{
    RistrettoPoint::multiscalar_mul(scalars.iter(), points.iter())
}

/// Relies on `RistrettoPoint::compress`: the canonical 32-byte encoding of a
/// group element (the field of `CompressedRistretto` is public).  The
/// canonical encoding of a group element always decompresses again.
#[verifier::external_body]
pub(crate) fn pt_compress(p: &RistrettoPoint) -> (r: [u8; 32])
    ensures
        ristretto_decodes(r@),
{
    p.compress().0
}

/// Whether 32 bytes are the canonical encoding of a group element.  The
/// encoding check is the outside crate's; whether it accepts given bytes
/// depends on those bytes alone, so the outcome carries a name.
pub uninterp spec fn ristretto_decodes(b: Seq<u8>) -> bool;

/// Relies on `CompressedRistretto::decompress`: `Some` exactly when the
/// bytes are the canonical encoding of a group element, a deterministic
/// test of the bytes alone.
#[verifier::external_body]
pub(crate) fn pt_decompress(b: &[u8; 32]) -> (r: Option<RistrettoPoint>)
    ensures
        r is Some <==> ristretto_decodes(b@),
{
    CompressedRistretto(*b).decompress()
}

/// Relies on `RistrettoPoint::hash_from_bytes` with SHA-512: a group element
/// depending on the input bytes alone.
#[verifier::external_body]
pub(crate) fn pt_hash(input: &Vec<u8>) -> RistrettoPoint {
    RistrettoPoint::hash_from_bytes::<sha2::Sha512>(input.as_slice())
}

/// Relies on `Transcript::append_u64`: absorbs a labeled integer.
#[verifier::external_body]
pub(crate) fn tr_append_u64(t: &mut Transcript, label: &'static str, x: u64) {
    t.append_u64(label.as_bytes(), x);
}

/// Relies on `Transcript::append_message`: absorbs a labeled byte string.
#[verifier::external_body]
pub(crate) fn tr_append_32(t: &mut Transcript, label: &'static str, msg: &[u8; 32]) {
    t.append_message(label.as_bytes(), msg);
}

/// Relies on `Transcript::challenge_bytes`: squeezes 64 labeled bytes that
/// are a deterministic function of everything absorbed so far.
#[verifier::external_body]
pub(crate) fn tr_challenge(t: &mut Transcript, label: &'static str) -> [u8; 64] {
    let mut buf = [0u8; 64];
    t.challenge_bytes(label.as_bytes(), &mut buf);
    buf
}

/// Squeezes a labeled challenge from the transcript and reduces the 64
/// bytes to a scalar.
pub(crate) fn challenge_scalar(t: &mut Transcript, label: &'static str) -> Scalar {
    let buf = tr_challenge(t, label);
    sc_from_wide(&buf)
}

} // verus!
