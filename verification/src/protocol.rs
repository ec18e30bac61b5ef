//! The whole protocol composed once: a verified witness that the five
//! operations fit together. The signer and the requester are played by the
//! same caller here, so the contracts of key generation, session opening,
//! blinding, signing and unblinding can be chained into the verification
//! equation with no assumption beyond them.

use vstd::prelude::*;

use crate::Error;
use crate::group::gadd;
use crate::group::gmul;
use crate::group::group_order;
use crate::group::le_val;
use crate::group::point_val;
use crate::group::point_wire;
use crate::keypair::BlindKeypair;
use crate::laws::lemma_end_to_end;
use crate::request::BlindRequest;
use crate::request::challenge_val;
use crate::session::BlindSession;
use crate::signature::UnblindedSigData;
use crate::signature::sig_valid;

verus! {

/// Runs one complete protocol exchange over `msg` with fresh randomness:
/// generates a keypair, opens a session, blinds the commitment, signs the
/// blinded challenge and unblinds the share. The returned triple provably
/// satisfies the verification equation against the returned keypair's public
/// key, and its challenge is the one derived from its commitment and `msg`,
/// so `authenticate` and `msg_authenticate(msg)` both return `true` on it.
///
/// Fails only with `RngInitFailed`, when the secure source is unavailable.
pub fn run_protocol(msg: &[u8]) -> (r: Result<(BlindKeypair, UnblindedSigData), Error>)
    ensures
        r matches Ok((kp, sig)) ==> {
            &&& kp.wf()
            &&& sig.wf()
            &&& sig_valid(sig.e_val(), sig.s_val(), sig.r_val(), kp.public_val())
            &&& sig.e_val() == challenge_val(point_wire(sig.r_val()), msg@)
        },
        r matches Err(e) ==> e == Error::RngInitFailed,
{
    let kp = match BlindKeypair::generate() {
        Ok(k) => k,
        Err(e) => {
            return Err(e);
        },
    };
    let (rp, bs) = match BlindSession::new() {
        Ok(t) => t,
        Err(e) => {
            return Err(e);
        },
    };
    let ghost k = bs.nonce_val();
    let pk = kp.public();
    let (ep, br) = match BlindRequest::new_specific_msg(&rp, msg, &pk) {
        Ok(t) => t,
        Err(e) => {
            return Err(e);
        },
    };
    let ghost bv = choose|bv: int|
        #![trigger gadd(br.e_val(), bv)]
        {
            &&& 0 <= bv < group_order()
            &&& le_val(ep@) == gadd(br.e_val(), bv)
            &&& forall|v: int|
                0 <= v < group_order() && rp@ == point_wire(v) ==> br.r_val() == gadd(
                    gadd(v, br.a_val()),
                    gmul(bv, point_val(pk)),
                )
        };
    proof {
        vstd::arithmetic::div_mod::lemma_mod_bound(br.e_val() + bv, group_order());
    }
    let sp = match bs.sign_ep(&ep, kp.private()) {
        Ok(s) => s,
        Err(e) => {
            return Err(e);
        },
    };
    proof {
        vstd::arithmetic::div_mod::lemma_mod_bound(
            kp.private_val() * le_val(ep@) + k,
            group_order(),
        );
    }
    let ghost a = br.a_val();
    let ghost e = br.e_val();
    let ghost rv = br.r_val();
    let sig = match br.gen_signed_msg(&sp) {
        Ok(s) => s,
        Err(e) => {
            return Err(e);
        },
    };
    proof {
        lemma_end_to_end(
            kp.private_val(),
            k,
            a,
            bv,
            e,
            le_val(ep@),
            rv,
            le_val(sp@),
            sig.s_val(),
        );
    }
    Ok((kp, sig))
}

} // verus!
