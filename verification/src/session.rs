//! The signer's side of one protocol run.
//!
//! A session holds the secret per-run nonce. It is consumed by `sign_ep`,
//! which takes it by value: no second signature share can be produced from
//! the same nonce, because no reference to the session survives the call.

use vstd::prelude::*;

use crate::Error;
use crate::group::gadd;
use crate::group::gmul;
use crate::group::group_order;
use crate::group::le_val;
use crate::group::point_wire;
use crate::group::random_wide_bytes;
use crate::group::scalar_add;
use crate::group::scalar_from_wide;
use crate::group::scalar_from_wire;
use crate::group::scalar_mul;
use crate::group::scalar_to_wire;
use crate::group::scalar_val;
use crate::keypair::scalar_mul_basepoint;
use curve25519_dalek::scalar::Scalar;

verus! {

/// One signer-side signing session: the secret nonce behind a commitment
/// already handed to the requester.
pub struct BlindSession {
    k: Scalar,
}

impl BlindSession {
    /// The value of the secret nonce.
    pub closed spec fn nonce_val(self) -> int {
        scalar_val(self.k)
    }

    /// The nonce lies in the scalar field.
    pub open spec fn wf(self) -> bool {
        0 <= self.nonce_val() < group_order()
    }

    /// Builds a session deterministically from 64 bytes of nonce material:
    /// the nonce is the material reduced to the scalar field, and the
    /// returned 32 bytes are the wire form of the commitment, the basepoint
    /// scaled by the nonce.
    pub fn from_nonce_material(wide: &[u8; 64]) -> (r: ([u8; 32], Self))
        ensures
            r.1.wf(),
            r.1.nonce_val() == le_val(wide@) % group_order(),
            r.0@ == point_wire(r.1.nonce_val()),
    {
        let k = scalar_from_wide(wide);
        proof {
            vstd::arithmetic::div_mod::lemma_mod_bound(le_val(wide@), group_order());
        }
        let commitment = scalar_mul_basepoint(&k);
        let rp = crate::group::point_compress(&commitment);
        (rp, BlindSession { k })
    }

    /// Opens a session: samples the nonce from the secure source and returns
    /// the wire form of the commitment together with the session.
    ///
    /// Fails only with `RngInitFailed`, when the secure source is
    /// unavailable.
    pub fn new() -> (r: Result<([u8; 32], Self), Error>)
        ensures
            r matches Ok((rp, session)) ==> session.wf() && rp@ == point_wire(
                session.nonce_val(),
            ),
            r matches Err(e) ==> e == Error::RngInitFailed,
    {
        let wide = match random_wide_bytes() {
            Some(w) => w,
            None => {
                return Err(Error::RngInitFailed);
            },
        };
        Ok(Self::from_nonce_material(&wide))
    }

    /// Consumes the session and produces the signature share on the blinded
    /// challenge `ep`: the share is `xs * ep + nonce` in the scalar field,
    /// where `xs` is the signer's private key.
    ///
    /// Fails with `WiredScalarMalformed` exactly when `ep` is not the
    /// canonical encoding of a scalar.
    pub fn sign_ep(self, ep: &[u8; 32], xs: Scalar) -> (r: Result<[u8; 32], Error>)
        ensures
            le_val(ep@) < group_order() ==> (r matches Ok(sp) && le_val(sp@) == gadd(
                gmul(scalar_val(xs), le_val(ep@)),
                self.nonce_val(),
            )),
            le_val(ep@) >= group_order() ==> r == Err::<[u8; 32], Error>(
                Error::WiredScalarMalformed,
            ),
    {
        let challenge = match scalar_from_wire(ep) {
            Some(s) => s,
            None => {
                return Err(Error::WiredScalarMalformed);
            },
        };
        let product = scalar_mul(&xs, &challenge);
        let share = scalar_add(&product, &self.k);
        Ok(scalar_to_wire(&share))
    }
}

} // verus!
