//! The protocol-wide guarantees, stated and proved over the same spec
//! functions that the operations' contracts use.

use vstd::prelude::*;

use crate::group::gadd;
use crate::group::gmul;
use crate::group::group_order;
use crate::group::lemma_le_val_injective;
use crate::group::point_wire;
use crate::request::challenge_val;
use crate::signature::sig_valid;
use crate::signature::wire_encodes;
use vstd::arithmetic::div_mod::lemma_add_mod_noop;
use vstd::arithmetic::div_mod::lemma_mod_bound;
use vstd::arithmetic::div_mod::lemma_mul_mod_noop_right;
use vstd::arithmetic::div_mod::lemma_small_mod;
use vstd::arithmetic::mul::lemma_mul_is_distributive_add;

verus! {

/// Law: the blinding terms cancel exactly. For a private key `x`, a session
/// nonce `k`, blinding factors `a` and `b` and a challenge `e`, all in the
/// scalar field, the signer's share on the blinded challenge `e + b` is
/// `x*(e + b) + k`; unblinded with `a` it satisfies the verification
/// equation on challenge `e` against the unblinded commitment
/// `R = R' + a*basepoint + b*public` (of discrete logarithm `k + a + b*x`)
/// and the public key `x*basepoint`.
pub proof fn lemma_blind_signature_complete(x: int, k: int, a: int, b: int, e: int)
    requires
        0 <= x < group_order(),
        0 <= k < group_order(),
        0 <= a < group_order(),
        0 <= b < group_order(),
        0 <= e < group_order(),
    ensures
        sig_valid(
            e,
            gadd(gadd(gmul(x, gadd(e, b)), k), a),
            gadd(gadd(k, a), gmul(b, x)),
            x,
        ),
{
    let o = group_order();
    let s = gadd(gadd(gmul(x, gadd(e, b)), k), a);

    // The unblinded signature value equals (x*e + x*b + k + a) mod o.
    assert(gmul(x, gadd(e, b)) == (x * (e + b)) % o) by {
        lemma_mul_mod_noop_right(x, e + b, o);
    }
    assert(gadd((x * (e + b)) % o, k) == (x * (e + b) + k) % o) by {
        lemma_small_mod(k as nat, o as nat);
        lemma_add_mod_noop(x * (e + b), k, o);
    }
    assert(gadd((x * (e + b) + k) % o, a) == (x * (e + b) + k + a) % o) by {
        lemma_small_mod(a as nat, o as nat);
        lemma_add_mod_noop(x * (e + b) + k, a, o);
    }
    assert(x * (e + b) == x * e + x * b) by {
        lemma_mul_is_distributive_add(x, e, b);
    }
    assert(s == (x * e + x * b + k + a) % o);

    // The right-hand side of the verification equation is the same residue.
    let r = gadd(gadd(k, a), gmul(b, x));
    assert(r == (k + a + b * x) % o) by {
        lemma_mod_bound(b * x, o);
        lemma_mod_bound(k + a, o);
        lemma_small_mod(((b * x) % o) as nat, o as nat);
        lemma_small_mod(((k + a) % o) as nat, o as nat);
        lemma_add_mod_noop(k + a, b * x, o);
        assert(gadd(k, a) == (k + a) % o);
        assert(gadd((k + a) % o, (b * x) % o) == (k + a + b * x) % o);
    }
    assert(gadd(gmul(e, x), r) == (e * x + (k + a + b * x)) % o) by {
        lemma_add_mod_noop(e * x, k + a + b * x, o);
        lemma_mod_bound(k + a + b * x, o);
        lemma_small_mod(((k + a + b * x) % o) as nat, o as nat);
    }

    // Both sides reduce to the same integer, so the residues agree.
    assert(x * e + x * b + k + a == e * x + (k + a + b * x)) by {
        assert(x * e == e * x) by (nonlinear_arith);
        assert(x * b == b * x) by (nonlinear_arith);
    }
    assert(s % o == s) by {
        lemma_mod_bound(x * (e + b) + k + a, o);
        lemma_small_mod(s as nat, o as nat);
    }
}

/// Law: a full protocol run authenticates. The hypotheses are exactly what
/// the five operations' contracts deliver: a generated keypair's public
/// value equals its private value `x`; a session's commitment encodes its
/// nonce `k`; blinding with factors `a` and `b` yields the blinded challenge
/// `e + b` and a commitment of discrete logarithm `k + a + b*x`; the share
/// on the blinded challenge is `x*(e + b) + k`; and unblinding adds `a`.
/// The resulting triple satisfies the verification equation against `x`.
pub proof fn lemma_end_to_end(
    x: int,
    k: int,
    a: int,
    bv: int,
    e: int,
    ep: int,
    rv: int,
    sp: int,
    s: int,
)
    requires
        0 <= x < group_order(),
        0 <= k < group_order(),
        0 <= a < group_order(),
        0 <= bv < group_order(),
        0 <= e < group_order(),
        ep == gadd(e, bv),
        rv == gadd(gadd(k, a), gmul(bv, x)),
        sp == gadd(gmul(x, ep), k),
        s == gadd(sp, a),
    ensures
        sig_valid(e, s, rv, x),
{
    lemma_blind_signature_complete(x, k, a, bv, e);
}

/// Law: decoding a wire image of a signature triple yields that triple back.
/// The hypotheses are the encoder's contract on `(e, s, r)`, the decoder's
/// contract on what it returned, `(e2, s2, r2)`, and the decoder's guarantee
/// that the third field determines the commitment.
pub proof fn lemma_wire_round_trip(
    bytes: Seq<u8>,
    e: int,
    s: int,
    r: int,
    e2: int,
    s2: int,
    r2: int,
)
    requires
        0 <= r < group_order(),
        wire_encodes(bytes, e, s, r),
        wire_encodes(bytes, e2, s2, r2),
        forall|v: int| 0 <= v < group_order() && bytes.subrange(64, 96) == point_wire(v) ==> v
            == r2,
    ensures
        e2 == e,
        s2 == s,
        r2 == r,
{
}

/// Law: a triple has exactly one wire image. Two byte strings that encode
/// the same values are byte-for-byte equal, so encoding is deterministic and
/// the round trip is an identity on wire images as well as on triples.
pub proof fn lemma_wire_image_unique(bytes1: Seq<u8>, bytes2: Seq<u8>, e: int, s: int, r: int)
    requires
        wire_encodes(bytes1, e, s, r),
        wire_encodes(bytes2, e, s, r),
    ensures
        bytes1 =~= bytes2,
{
    lemma_le_val_injective(bytes1.subrange(0, 32), bytes2.subrange(0, 32));
    lemma_le_val_injective(bytes1.subrange(32, 64), bytes2.subrange(32, 64));
    assert forall|i: int| 0 <= i < 96 implies bytes1[i] == bytes2[i] by {
        if i < 32 {
            assert(bytes1.subrange(0, 32)[i] == bytes2.subrange(0, 32)[i]);
        } else if i < 64 {
            assert(bytes1.subrange(32, 64)[i - 32] == bytes2.subrange(32, 64)[i - 32]);
        } else {
            assert(bytes1.subrange(64, 96)[i - 64] == bytes2.subrange(64, 96)[i - 64]);
        }
    }
}

/// Law: the constant-time and the variable-time authentication decisions
/// agree on every triple and key: both equal the verification equation, so
/// two results derived from the same values are the same boolean.
pub proof fn lemma_timing_variant_agreement(
    e: int,
    s: int,
    r: int,
    q: int,
    plain: bool,
    constant_time: bool,
)
    requires
        plain == sig_valid(e, s, r, q),
        constant_time == sig_valid(e, s, r, q),
    ensures
        plain == constant_time,
{
}

/// Law: when the stored challenge is the one derived from the commitment and
/// a message — as every completed protocol run guarantees — authenticating
/// with the stored challenge and authenticating against that message decide
/// alike.
pub proof fn lemma_message_binding(e: int, s: int, r: int, q: int, msg: Seq<u8>)
    requires
        e == challenge_val(point_wire(r), msg),
    ensures
        sig_valid(e, s, r, q) == sig_valid(challenge_val(point_wire(r), msg), s, r, q),
{
}

} // verus!
