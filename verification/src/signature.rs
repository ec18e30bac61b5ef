//! The final signature triple and its fixed 96-byte wire form.

use vstd::prelude::*;

use crate::Error;
use crate::group::basepoint;
use crate::group::gadd;
use crate::group::gmul;
use crate::group::group_order;
use crate::group::le_val;
use crate::group::lemma_le_val_nonneg;
use crate::group::point_add;
use crate::group::point_compress;
use crate::group::point_decompress;
use crate::group::point_val;
use crate::group::point_wire;
use crate::group::points_ct_eq;
use crate::group::points_eq;
use crate::group::scalar_from_wire;
use crate::group::scalar_mul_point;
use crate::group::scalar_to_wire;
use crate::group::scalar_val;
use crate::request::challenge_val;
use crate::request::generate_e;
use curve25519_dalek::ristretto::RistrettoPoint;
use curve25519_dalek::scalar::Scalar;

verus! {

/// The verification equation of the scheme: a signature value `s`
/// authenticates on challenge `e` and commitment `r` against a public key
/// `q` when `s * basepoint == e * public + R`, which in discrete logarithms
/// reads `s == e * q + r` in the scalar field.
pub open spec fn sig_valid(e: int, s: int, r: int, q: int) -> bool {
    s % group_order() == gadd(gmul(e, q), r)
}

/// The signature triple `(e, s, R)` produced by a completed protocol run:
/// the challenge, the unblinded signature value, and the unblinded
/// commitment. The message itself is not part of the triple; `e` is the
/// hash of `R`'s encoding and the message.
#[derive(Clone, Copy, Debug)]
pub struct UnblindedSigData {
    e: Scalar,
    s: Scalar,
    r: RistrettoPoint,
}

/// `bytes` is the 96-byte wire image of the triple `(e, s, r)`: the two
/// scalars little-endian in the first two 32-byte fields, the commitment's
/// canonical encoding in the third.
pub open spec fn wire_encodes(bytes: Seq<u8>, e: int, s: int, r: int) -> bool {
    &&& bytes.len() == 96
    &&& le_val(bytes.subrange(0, 32)) == e
    &&& le_val(bytes.subrange(32, 64)) == s
    &&& bytes.subrange(64, 96) == point_wire(r)
}

impl UnblindedSigData {
    /// The value of the challenge.
    pub closed spec fn e_val(self) -> int {
        scalar_val(self.e)
    }

    /// The value of the signature.
    pub closed spec fn s_val(self) -> int {
        scalar_val(self.s)
    }

    /// The discrete logarithm of the commitment.
    pub closed spec fn r_val(self) -> int {
        point_val(self.r)
    }

    /// All components lie in the scalar field.
    pub open spec fn wf(self) -> bool {
        &&& 0 <= self.e_val() < group_order()
        &&& 0 <= self.s_val() < group_order()
        &&& 0 <= self.r_val() < group_order()
    }

    /// Packages a challenge, a signature value and a commitment as a triple.
    pub fn new(e: Scalar, s: Scalar, r: RistrettoPoint) -> (sig: Self)
        ensures
            sig.e_val() == scalar_val(e),
            sig.s_val() == scalar_val(s),
            sig.r_val() == point_val(r),
    {
        UnblindedSigData { e, s, r }
    }

    /// Decides whether the stored signature value authenticates on the
    /// stored challenge and commitment against `pub_key`: whether
    /// `s * basepoint == e * pub_key + R`. Neither side of that equation is
    /// secret, so the comparison need not be constant-time.
    ///
    /// This checks only that the triple is internally consistent; it says
    /// nothing of any message. Use `msg_authenticate` to bind a message.
    pub fn authenticate(&self, pub_key: RistrettoPoint) -> (res: bool)
        ensures
            res == sig_valid(self.e_val(), self.s_val(), self.r_val(), point_val(pub_key)),
    {
        let g = basepoint();
        let lhs = scalar_mul_point(&self.s, &g);
        let eq = scalar_mul_point(&self.e, &pub_key);
        let rhs = point_add(&eq, &self.r);
        proof {
            assert(scalar_val(self.s) * 1 == scalar_val(self.s));
        }
        points_eq(&lhs, &rhs)
    }

    /// The same decision as `authenticate`, through a constant-time
    /// comparison.
    pub fn const_authenticate(&self, pub_key: RistrettoPoint) -> (res: bool)
        ensures
            res == sig_valid(self.e_val(), self.s_val(), self.r_val(), point_val(pub_key)),
    {
        let g = basepoint();
        let lhs = scalar_mul_point(&self.s, &g);
        let eq = scalar_mul_point(&self.e, &pub_key);
        let rhs = point_add(&eq, &self.r);
        proof {
            assert(scalar_val(self.s) * 1 == scalar_val(self.s));
        }
        points_ct_eq(&lhs, &rhs)
    }

    /// Ignores the stored challenge and re-derives it from the stored
    /// commitment and `msg`, then decides the same equation with the derived
    /// challenge. This binds the signature to the actual message: it holds
    /// only when `msg` is the message hashed during blinding.
    pub fn msg_authenticate(&self, pub_key: RistrettoPoint, msg: &[u8]) -> (res: bool)
        ensures
            res == sig_valid(
                challenge_val(point_wire(self.r_val()), msg@),
                self.s_val(),
                self.r_val(),
                point_val(pub_key),
            ),
    {
        let derived = generate_e(&self.r, msg);
        let g = basepoint();
        let lhs = scalar_mul_point(&self.s, &g);
        let eq = scalar_mul_point(&derived, &pub_key);
        let rhs = point_add(&eq, &self.r);
        proof {
            assert(scalar_val(self.s) * 1 == scalar_val(self.s));
        }
        points_eq(&lhs, &rhs)
    }

    /// The same decision as `msg_authenticate`, through a constant-time
    /// comparison.
    pub fn msg_const_authenticate(&self, pub_key: RistrettoPoint, msg: &[u8]) -> (res: bool)
        ensures
            res == sig_valid(
                challenge_val(point_wire(self.r_val()), msg@),
                self.s_val(),
                self.r_val(),
                point_val(pub_key),
            ),
    {
        let derived = generate_e(&self.r, msg);
        let g = basepoint();
        let lhs = scalar_mul_point(&self.s, &g);
        let eq = scalar_mul_point(&derived, &pub_key);
        let rhs = point_add(&eq, &self.r);
        proof {
            assert(scalar_val(self.s) * 1 == scalar_val(self.s));
        }
        points_ct_eq(&lhs, &rhs)
    }
}

/// Writes 32 bytes into `dst` starting at `offset`, leaving the rest as it
/// was.
fn copy32(dst: &mut [u8; 96], src: &[u8; 32], offset: usize)
    requires
        offset + 32 <= 96,
    ensures
        forall|j: int|
            0 <= j < 96 ==> final (dst)@[j] == if offset <= j < offset + 32 {
                src@[j - offset]
            } else {
                old(dst)@[j]
            },
{
    let mut i: usize = 0;
    while i < 32
        invariant
            i <= 32,
            offset + 32 <= 96,
            forall|j: int|
                0 <= j < 96 ==> dst@[j] == if offset <= j < offset + i {
                    src@[j - offset]
                } else {
                    old(dst)@[j]
                },
        decreases 32 - i,
    {
        dst.set(offset + i, src[i]);
        i += 1;
    }
}

/// Reads the 32 bytes of `src` starting at `offset`.
fn take32(src: &[u8; 96], offset: usize) -> (r: [u8; 32])
    requires
        offset + 32 <= 96,
    ensures
        r@ == src@.subrange(offset as int, offset as int + 32),
{
    let mut out = [0u8; 32];
    let mut i: usize = 0;
    while i < 32
        invariant
            i <= 32,
            offset + 32 <= 96,
            forall|j: int| 0 <= j < i ==> out@[j] == src@[offset + j],
        decreases 32 - i,
    {
        out.set(i, src[offset + i]);
        i += 1;
    }
    proof {
        assert(out@ =~= src@.subrange(offset as int, offset as int + 32));
    }
    out
}

/// The triple in wire form: 96 bytes laid out as `e`, then `s`, then `R`,
/// each in a 32-byte field.
pub struct WiredUnblindedSigData(pub [u8; 96]);

impl WiredUnblindedSigData {
    /// Encodes a triple into its wire form. Encoding always succeeds.
    pub fn from_internal_format(sig: &UnblindedSigData) -> (w: Self)
        ensures
            wire_encodes(w.0@, sig.e_val(), sig.s_val(), sig.r_val()),
    {
        let eb = scalar_to_wire(&sig.e);
        let sb = scalar_to_wire(&sig.s);
        let rb = point_compress(&sig.r);
        let mut out = [0u8; 96];
        copy32(&mut out, &eb, 0);
        copy32(&mut out, &sb, 32);
        copy32(&mut out, &rb, 64);
        proof {
            assert(out@.subrange(0, 32) =~= eb@);
            assert(out@.subrange(32, 64) =~= sb@);
            assert(out@.subrange(64, 96) =~= rb@);
        }
        WiredUnblindedSigData(out)
    }

    /// Decodes the wire form back into a triple, all-or-nothing.
    ///
    /// Fails with `WiredScalarMalformed` exactly when one of the first two
    /// 32-byte fields is not the canonical encoding of a scalar, checked in
    /// order, and otherwise with `WiredRistrettoPointMalformed` exactly when
    /// the third is not the canonical encoding of a group element.
    pub fn to_internal_format(&self) -> (r: Result<UnblindedSigData, Error>)
        ensures
            r matches Ok(sig) ==> {
                &&& sig.wf()
                &&& wire_encodes(self.0@, sig.e_val(), sig.s_val(), sig.r_val())
                &&& forall|v: int|
                    0 <= v < group_order() && self.0@.subrange(64, 96) == point_wire(v) ==> v
                        == sig.r_val()
            },
            le_val(self.0@.subrange(0, 32)) >= group_order() ==> r == Err::<
                UnblindedSigData,
                Error,
            >(Error::WiredScalarMalformed),
            le_val(self.0@.subrange(0, 32)) < group_order() && le_val(
                self.0@.subrange(32, 64),
            ) >= group_order() ==> r == Err::<UnblindedSigData, Error>(Error::WiredScalarMalformed),
            (le_val(self.0@.subrange(0, 32)) < group_order() && le_val(self.0@.subrange(32, 64))
                < group_order() && !(exists|v: int|
                0 <= v < group_order() && self.0@.subrange(64, 96) == point_wire(v))) ==> r
                == Err::<UnblindedSigData, Error>(Error::WiredRistrettoPointMalformed),
            (le_val(self.0@.subrange(0, 32)) < group_order() && le_val(self.0@.subrange(32, 64))
                < group_order() && (exists|v: int|
                0 <= v < group_order() && self.0@.subrange(64, 96) == point_wire(v))) ==> r is Ok,
    {
        let e_arr = take32(&self.0, 0);
        let s_arr = take32(&self.0, 32);
        let r_arr = take32(&self.0, 64);
        let e = match scalar_from_wire(&e_arr) {
            Some(x) => x,
            None => {
                return Err(Error::WiredScalarMalformed);
            },
        };
        let s = match scalar_from_wire(&s_arr) {
            Some(x) => x,
            None => {
                return Err(Error::WiredScalarMalformed);
            },
        };
        let r = match point_decompress(&r_arr) {
            Some(p) => p,
            None => {
                return Err(Error::WiredRistrettoPointMalformed);
            },
        };
        proof {
            lemma_le_val_nonneg(e_arr@);
            lemma_le_val_nonneg(s_arr@);
        }
        Ok(UnblindedSigData { e, s, r })
    }

    /// Returns a reference to the 96 wire bytes.
    pub fn as_bytes(&self) -> (r: &[u8; 96])
        ensures
            r@ == self.0@,
    {
        &self.0
    }

    /// Returns a copy of the 96 wire bytes.
    pub fn to_bytes(&self) -> (r: [u8; 96])
        ensures
            r@ == self.0@,
    {
        self.0
    }
}

} // verus!
