//! The requester's side of one protocol run.
//!
//! The requester blinds the signer's commitment with two secret scalars `a`
//! and `b`: the unblinded commitment is `R = R' + a*basepoint + b*public`,
//! the challenge is the hash of `R`'s encoding and the message reduced to the
//! scalar field, and the blinded challenge sent to the signer is `e + b`.
//! The signer's share is later unblinded by adding `a`. A request is consumed
//! by `gen_signed_msg`, which takes it by value: the blinding factors can
//! serve at most one share.

use vstd::prelude::*;

use crate::Error;
use crate::group::gadd;
use crate::group::gmul;
use crate::group::group_order;
use crate::group::le_val;
use crate::group::point_add;
use crate::group::point_compress;
use crate::group::point_decompress;
use crate::group::point_val;
use crate::group::point_wire;
use crate::group::random_wide_bytes;
use crate::group::scalar_add;
use crate::group::scalar_from_wide;
use crate::group::scalar_from_wire;
use crate::group::scalar_mul_point;
use crate::group::scalar_to_wire;
use crate::group::scalar_val;
use crate::group::sha3_512;
use crate::group::sha3_512_of;
use crate::keypair::scalar_mul_basepoint;
use crate::signature::UnblindedSigData;
use curve25519_dalek::ristretto::RistrettoPoint;
use curve25519_dalek::scalar::Scalar;

verus! {

/// The challenge derived from a commitment's wire form and a message: the
/// SHA3-512 digest of the commitment bytes followed by the message bytes,
/// reduced to the scalar field.
pub open spec fn challenge_val(commitment_wire: Seq<u8>, msg: Seq<u8>) -> int {
    le_val(sha3_512_of(commitment_wire + msg)) % group_order()
}

/// The concatenation of two byte strings.
fn concat_bytes(a: &[u8], b: &[u8]) -> (r: Vec<u8>)
    ensures
        r@ == a@ + b@,
{
    let mut out: Vec<u8> = Vec::new();
    let mut i: usize = 0;
    while i < a.len()
        invariant
            i <= a.len(),
            out@ == a@.subrange(0, i as int),
        decreases a.len() - i,
    {
        out.push(a[i]);
        i += 1;
    }
    proof {
        assert(out@ =~= a@ + b@.subrange(0, 0));
    }
    let mut j: usize = 0;
    while j < b.len()
        invariant
            j <= b.len(),
            out@ == a@ + b@.subrange(0, j as int),
        decreases b.len() - j,
    {
        out.push(b[j]);
        proof {
            assert(out@ =~= a@ + b@.subrange(0, j + 1));
        }
        j += 1;
    }
    proof {
        assert(out@ =~= a@ + b@);
    }
    out
}

/// The challenge scalar for a commitment and a message: the SHA3-512 digest
/// of the commitment's encoding followed by the message, reduced to the
/// scalar field.
pub fn generate_e(r: &RistrettoPoint, msg: &[u8]) -> (e: Scalar)
    ensures
        scalar_val(e) == challenge_val(point_wire(point_val(*r)), msg@),
        0 <= scalar_val(e) < group_order(),
{
    let rw = point_compress(r);
    let data = concat_bytes(rw.as_slice(), msg);
    let digest = sha3_512(data.as_slice());
    let e = scalar_from_wide(&digest);
    proof {
        vstd::arithmetic::div_mod::lemma_mod_bound(
            le_val(sha3_512_of(point_wire(point_val(*r)) + msg@)),
            group_order(),
        );
    }
    e
}

/// One requester-side protocol run: the blinding factor `a` still needed for
/// unblinding, the challenge `e`, and the unblinded commitment `R`.
pub struct BlindRequest {
    a: Scalar,
    e: Scalar,
    r: RistrettoPoint,
}

impl BlindRequest {
    /// The value of the retained blinding factor.
    pub closed spec fn a_val(self) -> int {
        scalar_val(self.a)
    }

    /// The value of the challenge.
    pub closed spec fn e_val(self) -> int {
        scalar_val(self.e)
    }

    /// The discrete logarithm of the unblinded commitment.
    pub closed spec fn r_val(self) -> int {
        point_val(self.r)
    }

    /// All components lie in the scalar field.
    pub open spec fn wf(self) -> bool {
        &&& 0 <= self.a_val() < group_order()
        &&& 0 <= self.e_val() < group_order()
        &&& 0 <= self.r_val() < group_order()
    }

    /// Blinds the commitment `rp` deterministically from the given blinding
    /// material: `a` and `b` are `a_material` and `b_material` reduced to the
    /// scalar field, the unblinded commitment is
    /// `R = R' + a*basepoint + b*signer_public`, the challenge is derived
    /// from `R` and `msg`, and the returned 32 bytes carry `e + b`.
    ///
    /// Fails with `WiredRistrettoPointMalformed` exactly when `rp` is not the
    /// canonical encoding of a group element.
    pub fn new_with_blinding(
        rp: &[u8; 32],
        msg: &[u8],
        signer_public: &RistrettoPoint,
        a_material: &[u8; 64],
        b_material: &[u8; 64],
    ) -> (r: Result<([u8; 32], Self), Error>)
        ensures
            r is Ok <==> exists|v: int| 0 <= v < group_order() && rp@ == point_wire(v),
            r matches Err(e) ==> e == Error::WiredRistrettoPointMalformed,
            r matches Ok((ep, br)) ==> ({
                let bv = le_val(b_material@) % group_order();
                &&& br.wf()
                &&& br.a_val() == le_val(a_material@) % group_order()
                &&& br.e_val() == challenge_val(point_wire(br.r_val()), msg@)
                &&& le_val(ep@) == gadd(br.e_val(), bv)
                &&& forall|v: int|
                    0 <= v < group_order() && rp@ == point_wire(v) ==> br.r_val() == gadd(
                        gadd(v, br.a_val()),
                        gmul(bv, point_val(*signer_public)),
                    )
            }),
    {
        let rprime = match point_decompress(rp) {
            Some(p) => p,
            None => {
                return Err(Error::WiredRistrettoPointMalformed);
            },
        };
        let a = scalar_from_wide(a_material);
        let b = scalar_from_wide(b_material);
        proof {
            vstd::arithmetic::div_mod::lemma_mod_bound(le_val(a_material@), group_order());
            vstd::arithmetic::div_mod::lemma_mod_bound(le_val(b_material@), group_order());
        }
        let ag = scalar_mul_basepoint(&a);
        let bq = scalar_mul_point(&b, signer_public);
        let partial = point_add(&rprime, &ag);
        let r_point = point_add(&partial, &bq);
        let e = generate_e(&r_point, msg);
        let ep = scalar_add(&e, &b);
        Ok((scalar_to_wire(&ep), BlindRequest { a, e, r: r_point }))
    }

    /// Blinds the commitment `rp` for the given message with fresh blinding
    /// factors from the secure source.
    ///
    /// Fails with `WiredRistrettoPointMalformed` exactly when `rp` is not the
    /// canonical encoding of a group element, and otherwise with
    /// `RngInitFailed` when the secure source is unavailable.
    pub fn new_specific_msg(rp: &[u8; 32], msg: &[u8], signer_public: &RistrettoPoint) -> (r:
        Result<([u8; 32], Self), Error>)
        ensures
            !(exists|v: int| 0 <= v < group_order() && rp@ == point_wire(v)) ==> r == Err::<
                ([u8; 32], Self),
                Error,
            >(Error::WiredRistrettoPointMalformed),
            r matches Err(e) ==> (e == Error::WiredRistrettoPointMalformed <==> !(exists|v: int|
                0 <= v < group_order() && rp@ == point_wire(v))) && (e
                == Error::WiredRistrettoPointMalformed || e == Error::RngInitFailed),
            r matches Ok((ep, br)) ==> ({
                &&& br.wf()
                &&& br.e_val() == challenge_val(point_wire(br.r_val()), msg@)
                &&& exists|bv: int|
                    #![trigger gadd(br.e_val(), bv)]
                    {
                        &&& 0 <= bv < group_order()
                        &&& le_val(ep@) == gadd(br.e_val(), bv)
                        &&& forall|v: int|
                            0 <= v < group_order() && rp@ == point_wire(v) ==> br.r_val() == gadd(
                                gadd(v, br.a_val()),
                                gmul(bv, point_val(*signer_public)),
                            )
                    }
            }),
    {
        // Parse before sampling: a malformed commitment is reported even
        // when the secure source is also unavailable.
        if point_decompress(rp).is_none() {
            return Err(Error::WiredRistrettoPointMalformed);
        }
        let a_material = match random_wide_bytes() {
            Some(w) => w,
            None => {
                return Err(Error::RngInitFailed);
            },
        };
        let b_material = match random_wide_bytes() {
            Some(w) => w,
            None => {
                return Err(Error::RngInitFailed);
            },
        };
        proof {
            vstd::arithmetic::div_mod::lemma_mod_bound(le_val(b_material@), group_order());
        }
        Self::new_with_blinding(rp, msg, signer_public, &a_material, &b_material)
    }

    /// Blinds the commitment `rp` with fresh blinding factors, hashing the
    /// protocol's placeholder — the empty message — in place of a message;
    /// message-binding verification is unavailable for such a run.
    ///
    /// Fails as `new_specific_msg` does.
    pub fn new(rp: &[u8; 32], signer_public: &RistrettoPoint) -> (r: Result<
        ([u8; 32], Self),
        Error,
    >)
        ensures
            !(exists|v: int| 0 <= v < group_order() && rp@ == point_wire(v)) ==> r == Err::<
                ([u8; 32], Self),
                Error,
            >(Error::WiredRistrettoPointMalformed),
            r matches Err(e) ==> (e == Error::WiredRistrettoPointMalformed <==> !(exists|v: int|
                0 <= v < group_order() && rp@ == point_wire(v))) && (e
                == Error::WiredRistrettoPointMalformed || e == Error::RngInitFailed),
            r matches Ok((ep, br)) ==> ({
                &&& br.wf()
                &&& br.e_val() == challenge_val(point_wire(br.r_val()), Seq::<u8>::empty())
                &&& exists|bv: int|
                    #![trigger gadd(br.e_val(), bv)]
                    {
                        &&& 0 <= bv < group_order()
                        &&& le_val(ep@) == gadd(br.e_val(), bv)
                        &&& forall|v: int|
                            0 <= v < group_order() && rp@ == point_wire(v) ==> br.r_val() == gadd(
                                gadd(v, br.a_val()),
                                gmul(bv, point_val(*signer_public)),
                            )
                    }
            }),
    {
        let placeholder: [u8; 0] = [];
        proof {
            assert(placeholder@ =~= Seq::<u8>::empty());
        }
        Self::new_specific_msg(rp, placeholder.as_slice(), signer_public)
    }

    /// Consumes the request and unblinds the signer's share `sp`: the final
    /// signature value is `sp + a` in the scalar field, packaged with the
    /// retained challenge and unblinded commitment.
    ///
    /// Fails with `WiredScalarMalformed` exactly when `sp` is not the
    /// canonical encoding of a scalar.
    pub fn gen_signed_msg(self, sp: &[u8; 32]) -> (r: Result<UnblindedSigData, Error>)
        ensures
            le_val(sp@) < group_order() ==> (r matches Ok(sig) && {
                &&& sig.e_val() == self.e_val()
                &&& sig.s_val() == gadd(le_val(sp@), self.a_val())
                &&& sig.r_val() == self.r_val()
                &&& self.wf() ==> sig.wf()
            }),
            le_val(sp@) >= group_order() ==> r == Err::<UnblindedSigData, Error>(
                Error::WiredScalarMalformed,
            ),
    {
        let share = match scalar_from_wire(sp) {
            Some(s) => s,
            None => {
                return Err(Error::WiredScalarMalformed);
            },
        };
        let s = scalar_add(&share, &self.a);
        proof {
            vstd::arithmetic::div_mod::lemma_mod_bound(
                le_val(sp@) + self.a_val(),
                group_order(),
            );
        }
        Ok(UnblindedSigData::new(self.e, s, self.r))
    }
}

} // verus!
