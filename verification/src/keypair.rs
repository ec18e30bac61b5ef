//! The signer's long-term keypair.

use vstd::prelude::*;

use crate::Error;
use crate::group::basepoint;
use crate::group::group_order;
use crate::group::le_val;
use crate::group::point_compress;
use crate::group::point_decompress;
use crate::group::point_val;
use crate::group::point_wire;
use crate::group::random_wide_bytes;
use crate::group::scalar_from_wide;
use crate::group::scalar_from_wire;
use crate::group::scalar_to_wire;
use crate::group::scalar_val;
use curve25519_dalek::ristretto::RistrettoPoint;
use curve25519_dalek::scalar::Scalar;

verus! {

/// An elliptic-curve keypair. The private key is a scalar used by the signer
/// to produce signature shares; the public key is a group element with which
/// anyone can authenticate the unblinded signature.
///
/// `generate` guarantees `public == private * basepoint`; building the pair
/// from wire bytes with `from_wired` does not re-check that relation.
#[derive(Clone, Copy, Debug)]
pub struct BlindKeypair {
    private: Scalar,
    public: RistrettoPoint,
}

impl BlindKeypair {
    /// The value of the private scalar.
    pub closed spec fn private_val(self) -> int {
        scalar_val(self.private)
    }

    /// The discrete logarithm of the public point.
    pub closed spec fn public_val(self) -> int {
        point_val(self.public)
    }

    /// Both components lie in the scalar field.
    pub open spec fn wf(self) -> bool {
        &&& 0 <= self.private_val() < group_order()
        &&& 0 <= self.public_val() < group_order()
    }

    /// Generates a keypair: the private key is sampled from the secure
    /// source, and the public key is the basepoint scaled by it.
    ///
    /// Fails only with `RngInitFailed`, when the secure source is
    /// unavailable.
    pub fn generate() -> (r: Result<Self, Error>)
        ensures
            r matches Ok(kp) ==> kp.wf() && kp.public_val() == kp.private_val(),
            r matches Err(e) ==> e == Error::RngInitFailed,
    {
        let wide = match random_wide_bytes() {
            Some(w) => w,
            None => {
                return Err(Error::RngInitFailed);
            },
        };
        let private = scalar_from_wide(&wide);
        proof {
            vstd::arithmetic::div_mod::lemma_mod_bound(le_val(wide@), group_order());
        }
        let public = scalar_mul_basepoint(&private);
        Ok(BlindKeypair { private, public })
    }

    /// Builds a keypair from the 32-byte wire forms of its two components,
    /// parsed independently; the relation `public == private * basepoint` is
    /// not re-checked.
    ///
    /// Fails with `WiredScalarMalformed` exactly when `private` is not the
    /// canonical encoding of a scalar, and otherwise with
    /// `WiredRistrettoPointMalformed` exactly when `public` is not the
    /// canonical encoding of a group element.
    pub fn from_wired(private: [u8; 32], public: [u8; 32]) -> (r: Result<Self, Error>)
        ensures
            r matches Ok(kp) ==> {
                &&& kp.wf()
                &&& kp.private_val() == le_val(private@)
                &&& public@ == point_wire(kp.public_val())
            },
            le_val(private@) >= group_order() ==> r == Err::<Self, Error>(
                Error::WiredScalarMalformed,
            ),
            le_val(private@) < group_order() ==> (r matches Err(e) ==> e
                == Error::WiredRistrettoPointMalformed && !(exists|v: int|
                0 <= v < group_order() && public@ == point_wire(v))),
            (le_val(private@) < group_order() && exists|v: int|
                0 <= v < group_order() && public@ == point_wire(v)) ==> r is Ok,
    {
        let private_scalar = match scalar_from_wire(&private) {
            Some(s) => s,
            None => {
                return Err(Error::WiredScalarMalformed);
            },
        };
        let public_point = match point_decompress(&public) {
            Some(p) => p,
            None => {
                return Err(Error::WiredRistrettoPointMalformed);
            },
        };
        proof {
            crate::group::lemma_le_val_nonneg(private@);
        }
        Ok(BlindKeypair { private: private_scalar, public: public_point })
    }

    /// Returns the private key in scalar form.
    pub fn private(&self) -> (r: Scalar)
        ensures
            scalar_val(r) == self.private_val(),
    {
        self.private
    }

    /// Returns the public key in point form.
    pub fn public(&self) -> (r: RistrettoPoint)
        ensures
            point_val(r) == self.public_val(),
    {
        self.public
    }

    /// Returns the public key in wire form.
    pub fn public_wired(&self) -> (r: [u8; 32])
        ensures
            r@ == point_wire(self.public_val()),
    {
        point_compress(&self.public)
    }

    /// Returns the private key in wire form.
    pub fn private_wired(&self) -> (r: [u8; 32])
        ensures
            le_val(r@) == self.private_val(),
    {
        scalar_to_wire(&self.private)
    }
}

/// The basepoint scaled by `a`: the group element whose discrete logarithm is
/// the value of `a` itself.
pub(crate) fn scalar_mul_basepoint(a: &Scalar) -> (r: RistrettoPoint)
    requires
        0 <= scalar_val(*a) < group_order(),
    ensures
        point_val(r) == scalar_val(*a),
{
    let g = basepoint();
    let r = crate::group::scalar_mul_point(a, &g);
    proof {
        assert(scalar_val(*a) * 1 == scalar_val(*a));
        vstd::arithmetic::div_mod::lemma_small_mod(
            scalar_val(*a) as nat,
            group_order() as nat,
        );
    }
    r
}

} // verus!
