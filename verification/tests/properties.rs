use curve25519_dalek::constants::RISTRETTO_BASEPOINT_POINT;
use curve25519_dalek::scalar::Scalar;
use ecc_blind::Error;
use ecc_blind::keypair::BlindKeypair;
use ecc_blind::request::BlindRequest;
use ecc_blind::request::generate_e;
use ecc_blind::session::BlindSession;
use ecc_blind::signature::UnblindedSigData;
use ecc_blind::signature::WiredUnblindedSigData;
use rand::TryRng;

/// The canonical little-endian bytes of the group order itself: one past the
/// largest canonical scalar encoding.
const GROUP_ORDER_BYTES: [u8; 32] = [
    237, 211, 245, 92, 26, 99, 18, 88, 214, 156, 247, 162, 222, 249, 222, 20, 0, 0, 0, 0, 0, 0,
    0, 0, 0, 0, 0, 0, 0, 0, 0, 16,
];

fn complete_run(msg: &[u8]) -> (BlindKeypair, UnblindedSigData) {
    let keypair = BlindKeypair::generate().unwrap();
    let (rp, bs) = BlindSession::new().unwrap();
    let (ep, br) = BlindRequest::new_specific_msg(&rp, msg, &keypair.public()).unwrap();
    let sp = bs.sign_ep(&ep, keypair.private()).unwrap();
    let sig = br.gen_signed_msg(&sp).unwrap();
    (keypair, sig)
}

#[test]
fn wire_round_trip_preserves_triple() {
    let (keypair, sig) = complete_run(b"round trip");
    let wired = WiredUnblindedSigData::from_internal_format(&sig);
    let decoded = wired.to_internal_format().unwrap();
    let rewired = WiredUnblindedSigData::from_internal_format(&decoded);
    assert_eq!(wired.to_bytes(), rewired.to_bytes());
    assert_eq!(wired.as_bytes(), &wired.to_bytes());
    assert!(decoded.authenticate(keypair.public()));
}

#[test]
fn end_to_end_repeated_runs_authenticate() {
    for i in 0..10u32 {
        let msg = format!("message number {}", i);
        let (keypair, sig) = complete_run(msg.as_bytes());
        assert!(sig.authenticate(keypair.public()));
        assert!(sig.const_authenticate(keypair.public()));
    }
}

#[test]
fn end_to_end_placeholder_msg_authenticates() {
    let keypair = BlindKeypair::generate().unwrap();
    let (rp, bs) = BlindSession::new().unwrap();
    let (ep, br) = BlindRequest::new(&rp, &keypair.public()).unwrap();
    let sp = bs.sign_ep(&ep, keypair.private()).unwrap();
    let sig = br.gen_signed_msg(&sp).unwrap();
    assert!(sig.authenticate(keypair.public()));
    // The placeholder hashed by `new` is the empty message.
    assert!(sig.msg_authenticate(keypair.public(), b""));
}

#[test]
fn cross_key_rejection() {
    let (keypair, sig) = complete_run(b"cross key");
    for _ in 0..8 {
        let other = BlindKeypair::generate().unwrap();
        assert_ne!(other.public_wired(), keypair.public_wired());
        assert!(!sig.authenticate(other.public()));
        assert!(!sig.const_authenticate(other.public()));
    }
}

#[test]
fn malformed_scalar_rejected_everywhere() {
    let keypair = BlindKeypair::generate().unwrap();
    let all_ones = [0xFFu8; 32];

    // A private key that is not canonical.
    assert!(matches!(
        BlindKeypair::from_wired(all_ones, keypair.public_wired()),
        Err(Error::WiredScalarMalformed)
    ));
    // The group order itself is the smallest non-canonical value.
    assert!(matches!(
        BlindKeypair::from_wired(GROUP_ORDER_BYTES, keypair.public_wired()),
        Err(Error::WiredScalarMalformed)
    ));
    // One below the group order is still canonical.
    let mut order_minus_one = GROUP_ORDER_BYTES;
    order_minus_one[0] -= 1;
    assert!(BlindKeypair::from_wired(order_minus_one, keypair.public_wired()).is_ok());

    // A blinded challenge that is not canonical.
    let (_rp, bs) = BlindSession::new().unwrap();
    assert!(matches!(
        bs.sign_ep(&all_ones, keypair.private()),
        Err(Error::WiredScalarMalformed)
    ));

    // A signature share that is not canonical.
    let (rp2, _bs2) = BlindSession::new().unwrap();
    let (_ep, br) = BlindRequest::new(&rp2, &keypair.public()).unwrap();
    assert!(matches!(
        br.gen_signed_msg(&GROUP_ORDER_BYTES),
        Err(Error::WiredScalarMalformed)
    ));
}

#[test]
fn malformed_point_rejected_everywhere() {
    let keypair = BlindKeypair::generate().unwrap();
    let all_ones = [0xFFu8; 32];
    let mut high_bit = keypair.public_wired();
    high_bit[31] |= 0x80;

    assert!(matches!(
        BlindKeypair::from_wired(keypair.private_wired(), all_ones),
        Err(Error::WiredRistrettoPointMalformed)
    ));
    assert!(matches!(
        BlindKeypair::from_wired(keypair.private_wired(), high_bit),
        Err(Error::WiredRistrettoPointMalformed)
    ));
    assert!(matches!(
        BlindRequest::new(&all_ones, &keypair.public()),
        Err(Error::WiredRistrettoPointMalformed)
    ));
    assert!(matches!(
        BlindRequest::new_specific_msg(&high_bit, b"m", &keypair.public()),
        Err(Error::WiredRistrettoPointMalformed)
    ));
}

#[test]
fn malformed_wire_triple_rejected_per_field() {
    let (_keypair, sig) = complete_run(b"wire fields");
    let good = WiredUnblindedSigData::from_internal_format(&sig).to_bytes();

    let mut bad_e = good;
    bad_e[0..32].copy_from_slice(&GROUP_ORDER_BYTES);
    assert!(matches!(
        WiredUnblindedSigData(bad_e).to_internal_format(),
        Err(Error::WiredScalarMalformed)
    ));

    let mut bad_s = good;
    bad_s[32..64].copy_from_slice(&[0xFFu8; 32]);
    assert!(matches!(
        WiredUnblindedSigData(bad_s).to_internal_format(),
        Err(Error::WiredScalarMalformed)
    ));

    let mut bad_r = good;
    bad_r[95] |= 0x80;
    assert!(matches!(
        WiredUnblindedSigData(bad_r).to_internal_format(),
        Err(Error::WiredRistrettoPointMalformed)
    ));
}

#[test]
fn timing_variants_agree_on_randomized_triples() {
    let keypair = BlindKeypair::generate().unwrap();
    let mut wide = [0u8; 64];
    for _ in 0..200 {
        rand::rngs::SysRng.try_fill_bytes(&mut wide).unwrap();
        let e = Scalar::from_bytes_mod_order_wide(&wide);
        rand::rngs::SysRng.try_fill_bytes(&mut wide).unwrap();
        let s = Scalar::from_bytes_mod_order_wide(&wide);
        let sig = UnblindedSigData::new(e, s, RISTRETTO_BASEPOINT_POINT);
        assert_eq!(
            sig.authenticate(keypair.public()),
            sig.const_authenticate(keypair.public())
        );
    }
    // Agreement also holds where authentication succeeds.
    let (kp, sig) = complete_run(b"agreement");
    assert!(sig.authenticate(kp.public()));
    assert!(sig.const_authenticate(kp.public()));
    assert_eq!(
        sig.msg_authenticate(kp.public(), b"agreement"),
        sig.msg_const_authenticate(kp.public(), b"agreement")
    );
}

#[test]
fn message_binding() {
    let (keypair, sig) = complete_run(b"attack at dawn");
    assert!(sig.authenticate(keypair.public()));
    assert!(sig.msg_authenticate(keypair.public(), b"attack at dawn"));
    assert!(sig.msg_const_authenticate(keypair.public(), b"attack at dawn"));
    assert!(!sig.msg_authenticate(keypair.public(), b"attack at dusk"));
    assert!(!sig.msg_const_authenticate(keypair.public(), b"attack at dusk"));
    assert!(!sig.msg_authenticate(keypair.public(), b""));
}

#[test]
fn degenerate_blinding_reduces_to_plain_path() {
    // A keypair and a session built from fixed material, and zero blinding
    // factors: the unblinded values must equal the signer's raw values.
    let x = Scalar::from_bytes_mod_order_wide(&[7u8; 64]);
    let public = (x * RISTRETTO_BASEPOINT_POINT).compress().to_bytes();
    let keypair = BlindKeypair::from_wired(x.to_bytes(), public).unwrap();
    let (rp, bs) = BlindSession::from_nonce_material(&[9u8; 64]);
    let zero = [0u8; 64];
    let (ep, br) =
        BlindRequest::new_with_blinding(&rp, b"degenerate", &keypair.public(), &zero, &zero)
            .unwrap();
    let sp = bs.sign_ep(&ep, keypair.private()).unwrap();
    let sig = br.gen_signed_msg(&sp).unwrap();
    let bytes = WiredUnblindedSigData::from_internal_format(&sig).to_bytes();
    // With b = 0 the blinded challenge equals the challenge.
    assert_eq!(&bytes[0..32], &ep[..]);
    // With a = 0 the unblinded signature equals the share.
    assert_eq!(&bytes[32..64], &sp[..]);
    // With a = b = 0 the unblinded commitment equals the signer's.
    assert_eq!(&bytes[64..96], &rp[..]);
    assert!(sig.authenticate(keypair.public()));
    assert!(sig.msg_authenticate(keypair.public(), b"degenerate"));
}

#[test]
fn challenge_derivation_is_pinned() {
    // SHA3-512 of the basepoint's canonical encoding followed by the message,
    // reduced mod the group order; the expected values were computed with an
    // independent SHA3-512 implementation.
    let e_empty = generate_e(&RISTRETTO_BASEPOINT_POINT, b"");
    assert_eq!(
        e_empty.to_bytes(),
        [
            87, 232, 113, 163, 242, 10, 86, 229, 198, 194, 181, 255, 21, 66, 104, 210, 156, 32,
            249, 140, 147, 85, 32, 5, 108, 129, 84, 201, 233, 145, 68, 15,
        ]
    );
    let e_test = generate_e(&RISTRETTO_BASEPOINT_POINT, b"test");
    assert_eq!(
        e_test.to_bytes(),
        [
            187, 234, 116, 138, 190, 196, 170, 183, 221, 116, 57, 231, 124, 124, 97, 158, 17,
            122, 123, 160, 22, 61, 129, 11, 167, 175, 19, 94, 120, 117, 123, 3,
        ]
    );
}

#[test]
fn run_protocol_authenticates() {
    let (keypair, sig) = ecc_blind::protocol::run_protocol(b"one exchange").unwrap();
    assert!(sig.authenticate(keypair.public()));
    assert!(sig.const_authenticate(keypair.public()));
    assert!(sig.msg_authenticate(keypair.public(), b"one exchange"));
    assert!(!sig.msg_authenticate(keypair.public(), b"another exchange"));
}

#[test]
fn keypair_wire_round_trip() {
    let keypair = BlindKeypair::generate().unwrap();
    let again = BlindKeypair::from_wired(keypair.private_wired(), keypair.public_wired()).unwrap();
    assert_eq!(again.private_wired(), keypair.private_wired());
    assert_eq!(again.public_wired(), keypair.public_wired());
    assert_eq!(
        keypair.public().compress().to_bytes(),
        keypair.public_wired()
    );
    assert_eq!(keypair.private().to_bytes(), keypair.private_wired());
}
