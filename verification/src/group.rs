//! Trusted boundary around the Ristretto group arithmetic of
//! `curve25519_dalek`, the SHA3-512 digest of `sha3`, and the operating
//! system's secure random source reached through `rand`.
//!
//! The Ristretto group is cyclic of prime order L, generated by the
//! basepoint, so every group element equals `n * basepoint` for exactly one
//! `n` in `[0, L)`. `point_val` maps an element to that discrete logarithm
//! and `scalar_val` maps a scalar to its residue in `[0, L)`; every contract
//! below states, in those terms, what the outside crate documents of the one
//! call its body makes.

use vstd::prelude::*;

use curve25519_dalek::ristretto::CompressedRistretto;
use curve25519_dalek::ristretto::RistrettoPoint;
use curve25519_dalek::scalar::Scalar;
use sha3::Digest;
use subtle::ConstantTimeEq;

verus! {

#[verifier::external_type_specification]
#[verifier::external_body]
pub struct ExScalar(Scalar);

#[verifier::external_type_specification]
#[verifier::external_body]
pub struct ExRistrettoPoint(RistrettoPoint);

/// The order of the Ristretto group, the prime
/// `2^252 + 27742317777372353535851937790883648493`.
pub open spec fn group_order() -> int {
    0x1000000000000000000000000000000014def9dea2f79cd65812631a5cf5d3edint
}

/// The residue in `[0, group_order())` that a scalar stands for.
pub uninterp spec fn scalar_val(s: Scalar) -> int;

/// The discrete logarithm in `[0, group_order())` of a group element with
/// respect to the basepoint.
pub uninterp spec fn point_val(p: RistrettoPoint) -> int;

/// The canonical 32-byte Ristretto encoding of the group element whose
/// discrete logarithm is `v`.
pub uninterp spec fn point_wire(v: int) -> Seq<u8>;

/// The 64-byte SHA3-512 digest of a byte string.
pub uninterp spec fn sha3_512_of(data: Seq<u8>) -> Seq<u8>;

/// Addition in the scalar field of the group.
pub open spec fn gadd(a: int, b: int) -> int {
    (a + b) % group_order()
}

/// Multiplication in the scalar field of the group.
pub open spec fn gmul(a: int, b: int) -> int {
    (a * b) % group_order()
}

/// The value of a byte string read as a little-endian integer.
pub open spec fn le_val(s: Seq<u8>) -> int
    decreases s.len(),
{
    if s.len() == 0 {
        0
    } else {
        s[0] + 256 * le_val(s.subrange(1, s.len() as int))
    }
}

/// The little-endian value of a byte string is never negative.
pub proof fn lemma_le_val_nonneg(s: Seq<u8>)
    ensures
        le_val(s) >= 0,
    decreases s.len(),
{
    if s.len() != 0 {
        lemma_le_val_nonneg(s.subrange(1, s.len() as int));
    }
}

/// Byte strings of one length with the same little-endian value are equal:
/// base-256 digits are unique.
pub proof fn lemma_le_val_injective(s1: Seq<u8>, s2: Seq<u8>)
    requires
        s1.len() == s2.len(),
        le_val(s1) == le_val(s2),
    ensures
        s1 =~= s2,
    decreases s1.len(),
{
    if s1.len() != 0 {
        let t1 = s1.subrange(1, s1.len() as int);
        let t2 = s2.subrange(1, s2.len() as int);
        lemma_le_val_nonneg(t1);
        lemma_le_val_nonneg(t2);
        assert(le_val(s1) == le_val(t1) * 256 + s1[0]);
        assert(le_val(s2) == le_val(t2) * 256 + s2[0]);
        vstd::arithmetic::div_mod::lemma_fundamental_div_mod_converse_mod(
            le_val(s1),
            256,
            le_val(t1),
            s1[0] as int,
        );
        vstd::arithmetic::div_mod::lemma_fundamental_div_mod_converse_mod(
            le_val(s2),
            256,
            le_val(t2),
            s2[0] as int,
        );
        vstd::arithmetic::div_mod::lemma_fundamental_div_mod_converse_div(
            le_val(s1),
            256,
            le_val(t1),
            s1[0] as int,
        );
        vstd::arithmetic::div_mod::lemma_fundamental_div_mod_converse_div(
            le_val(s2),
            256,
            le_val(t2),
            s2[0] as int,
        );
        lemma_le_val_injective(t1, t2);
        assert forall|i: int| 0 <= i < s1.len() implies s1[i] == s2[i] by {
            if i > 0 {
                assert(s1[i] == t1[i - 1]);
                assert(s2[i] == t2[i - 1]);
            }
        }
    }
}

/// Relies on `Scalar::from_canonical_bytes`: it accepts exactly the 32-byte
/// little-endian encodings of the integers in `[0, L)` and returns the scalar
/// with that value.
#[verifier::external_body]
pub(crate) fn scalar_from_wire(bytes: &[u8; 32]) -> (r: Option<Scalar>)
    ensures
        r matches Some(s) ==> scalar_val(s) == le_val(bytes@),
        r is Some <==> le_val(bytes@) < group_order(),
{
    Scalar::from_canonical_bytes(*bytes).into()
}

/// Relies on `Scalar::to_bytes`: the 32-byte little-endian encoding of the
/// scalar's value (scalars of this crate's version are kept reduced mod L).
#[verifier::external_body]
pub(crate) fn scalar_to_wire(s: &Scalar) -> (r: [u8; 32])
    ensures
        le_val(r@) == scalar_val(*s),
{
    s.to_bytes()
}

/// Relies on `Scalar::from_bytes_mod_order_wide`: it reduces a 512-bit
/// little-endian integer mod L.
#[verifier::external_body]
pub(crate) fn scalar_from_wide(bytes: &[u8; 64]) -> (r: Scalar)
    ensures
        scalar_val(r) == le_val(bytes@) % group_order(),
{
    Scalar::from_bytes_mod_order_wide(bytes)
}

/// Relies on the `Add` impl for `Scalar`: addition mod L.
#[verifier::external_body]
pub(crate) fn scalar_add(a: &Scalar, b: &Scalar) -> (r: Scalar)
    ensures
        scalar_val(r) == gadd(scalar_val(*a), scalar_val(*b)),
{
    a + b
}

/// Relies on the `Mul` impl for `Scalar`: multiplication mod L.
#[verifier::external_body]
pub(crate) fn scalar_mul(a: &Scalar, b: &Scalar) -> (r: Scalar)
    ensures
        scalar_val(r) == gmul(scalar_val(*a), scalar_val(*b)),
{
    a * b
}

/// Relies on `constants::RISTRETTO_BASEPOINT_POINT`: the group's generator,
/// of discrete logarithm 1.
#[verifier::external_body]
pub(crate) fn basepoint() -> (r: RistrettoPoint)
    ensures
        point_val(r) == 1,
{
    curve25519_dalek::constants::RISTRETTO_BASEPOINT_POINT
}

/// Relies on the `Mul` impl of `Scalar` by `RistrettoPoint`: in a cyclic
/// group, scaling an element multiplies its discrete logarithm mod L.
#[verifier::external_body]
pub(crate) fn scalar_mul_point(a: &Scalar, p: &RistrettoPoint) -> (r: RistrettoPoint)
    ensures
        point_val(r) == gmul(scalar_val(*a), point_val(*p)),
{
    a * p
}

/// Relies on the `Add` impl for `RistrettoPoint`: the group operation, under
/// which discrete logarithms add mod L.
#[verifier::external_body]
pub(crate) fn point_add(p: &RistrettoPoint, q: &RistrettoPoint) -> (r: RistrettoPoint)
    ensures
        point_val(r) == gadd(point_val(*p), point_val(*q)),
{
    p + q
}

/// Relies on `RistrettoPoint::compress`: the canonical encoding of the point.
#[verifier::external_body]
pub(crate) fn point_compress(p: &RistrettoPoint) -> (r: [u8; 32])
    ensures
        r@ == point_wire(point_val(*p)),
{
    p.compress().to_bytes()
}

/// Relies on `CompressedRistretto::decompress`: it succeeds exactly on the
/// canonical encoding of a group element and returns that element.
#[verifier::external_body]
pub(crate) fn point_decompress(bytes: &[u8; 32]) -> (r: Option<RistrettoPoint>)
    ensures
        r matches Some(p) ==> 0 <= point_val(p) < group_order() && bytes@ == point_wire(
            point_val(p),
        ),
        forall|v: int|
            0 <= v < group_order() && bytes@ == point_wire(v) ==> r is Some && point_val(r->0)
                == v,
{
    CompressedRistretto(*bytes).decompress()
}

/// Relies on the `PartialEq` impl for `RistrettoPoint`: group elements are
/// equal exactly when their discrete logarithms are.
#[verifier::external_body]
pub(crate) fn points_eq(p: &RistrettoPoint, q: &RistrettoPoint) -> (r: bool)
    ensures
        r == (point_val(*p) == point_val(*q)),
{
    p == q
}

/// Relies on subtle's `ConstantTimeEq` impl for `RistrettoPoint`: the same
/// equality as `PartialEq`, decided in constant time.
#[verifier::external_body]
pub(crate) fn points_ct_eq(p: &RistrettoPoint, q: &RistrettoPoint) -> (r: bool)
    ensures
        r == (point_val(*p) == point_val(*q)),
{
    p.ct_eq(q).unwrap_u8() == 1
}

/// Relies on `sha3::Sha3_512` through the digest interface: the 64-byte
/// SHA3-512 digest, which depends on the input bytes alone.
#[verifier::external_body]
pub(crate) fn sha3_512(data: &[u8]) -> (r: [u8; 64])
    ensures
        r@ == sha3_512_of(data@),
{
    let mut out = [0u8; 64];
    out.copy_from_slice(sha3::Sha3_512::digest(data).as_ref());
    out
}

/// Relies on rand's `SysRng` (the operating system's secure source) to fill
/// 64 bytes, reporting `None` when that source is unavailable. Nothing is
/// stated of the bytes themselves: callers must be correct for every outcome.
#[verifier::external_body]
pub(crate) fn random_wide_bytes() -> (r: Option<[u8; 64]>) {
    let mut buf = [0u8; 64];
    match rand::TryRng::try_fill_bytes(&mut rand::rngs::SysRng, &mut buf) {
        Ok(()) => Some(buf),
        Err(_) => None,
    }
}

} // verus!
