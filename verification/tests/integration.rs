use ecc_blind::keypair::BlindKeypair;
use ecc_blind::request::BlindRequest;
use ecc_blind::session::BlindSession;
use ecc_blind::signature::WiredUnblindedSigData;

#[test]
fn session_with_random_msg() {
    let keypair = BlindKeypair::generate().unwrap();
    let (rp, bs) = BlindSession::new().unwrap();
    let (ep, br) = BlindRequest::new(&rp, &keypair.public()).unwrap();
    let sp = bs.sign_ep(&ep, keypair.private()).unwrap();
    let blind_signed_msg = br.gen_signed_msg(&sp).unwrap();
    let wired = WiredUnblindedSigData::from_internal_format(&blind_signed_msg);
    println!(
        "\nS: {:?},\nE: {:?}, \nR: {:?}",
        &wired.0[0..32],
        &wired.0[32..64],
        &wired.0[64..96]
    );
    let sig = wired.to_internal_format().unwrap();
    assert!(sig.authenticate(keypair.public()));
}

#[test]
fn session_with_specific_msg() {
    let keypair = BlindKeypair::generate().unwrap();
    let (rp, bs) = BlindSession::new().unwrap();
    let (ep, br) = BlindRequest::new_specific_msg(&rp, "specific".as_bytes(), &keypair.public())
        .unwrap();
    let sp = bs.sign_ep(&ep, keypair.private()).unwrap();
    let blind_signed_msg = br.gen_signed_msg(&sp).unwrap();
    let wired = WiredUnblindedSigData::from_internal_format(&blind_signed_msg);
    println!(
        "\nS: {:?},\nE: {:?}, \nR: {:?}",
        &wired.0[0..32],
        &wired.0[32..64],
        &wired.0[64..96]
    );
    let sig = wired.to_internal_format().unwrap();
    assert!(sig.authenticate(keypair.public()));
}
