//! Scenario tests: concrete end-to-end runs with fixed parameters and
//! tamper checks.

use z_mpc::pedersen::{commit_all_shares, verify_all_committed_shares};
use z_mpc::zkp::{batch_verify_proofs, prove_committed_share, sign_message, verify_signature};
use z_mpc::{Curve, CurveType, Error, LaurentSeries, PedersenCommitment, SharingParams};
use z_mpc::curve::Secp256k1;

fn run_full_flow(curve_type: CurveType) {
    let params = SharingParams { curve_type, threshold: 3, participants: 5 };
    let laurent = LaurentSeries::new(&params).unwrap();
    let shares = laurent.generate_shares().unwrap();
    let committed = commit_all_shares(&shares, curve_type).unwrap();
    assert!(verify_all_committed_shares(&committed, curve_type).unwrap());
    let pedersen = PedersenCommitment::new(curve_type).unwrap();
    let mut proofs = Vec::new();
    for (share, cs) in shares.iter().zip(committed.iter()) {
        proofs.push(prove_committed_share(&pedersen, share, &cs.randomness, curve_type).unwrap());
    }
    assert!(batch_verify_proofs(&proofs, &pedersen).unwrap());
    let result = laurent.reconstruct_secret(&shares[..3]).unwrap();
    assert!(result.valid);
    assert_eq!(result.participants_used, vec![1, 2, 3]);
}

#[test]
fn test_full_flow_uses_first_three_shares() {
    run_full_flow(CurveType::Secp256k1);
}

#[test]
fn test_full_flow_all_curves() {
    run_full_flow(CurveType::Secp256k1);
    run_full_flow(CurveType::P256);
    run_full_flow(CurveType::Edwards25519);
}

#[test]
fn test_insufficient_shares_reports_counts() {
    let params = SharingParams {
        curve_type: CurveType::Secp256k1,
        threshold: 3,
        participants: 5,
    };
    let laurent = LaurentSeries::new(&params).unwrap();
    let shares = laurent.generate_shares().unwrap();
    let err = laurent.reconstruct_secret(&shares[..2]).unwrap_err();
    assert!(matches!(err, Error::InsufficientShares { required: 3, got: 2 }));
}

#[test]
fn test_schnorr_sign_verify_and_tamper() {
    let curve = Secp256k1::new();
    let private_key = curve.scalar_from_u64(1).unwrap();
    let message = b"hello";

    let signature = sign_message(message, &private_key, CurveType::Secp256k1).unwrap();
    // The public key of the scalar one is the generator itself.
    assert_eq!(
        hex::encode(&signature.public_key),
        "0279be667ef9dcbbac55a06295ce870b07029bfcdb2dce28d959f2815b16f81798"
    );
    assert!(verify_signature(&signature, message).unwrap());

    let mut tampered = signature.clone();
    let last = tampered.response.len() - 1;
    tampered.response[last] ^= 0x01;
    assert!(!verify_signature(&tampered, message).unwrap());
}

#[test]
fn test_schnorr_rejects_wrong_message_and_key() {
    let curve = Secp256k1::new();
    let private_key = curve.scalar_from_u64(42).unwrap();
    let signature = sign_message(b"payload", &private_key, CurveType::Secp256k1).unwrap();
    assert!(verify_signature(&signature, b"payload").unwrap());
    assert!(!verify_signature(&signature, b"payloae").unwrap());

    let mut wrong_key = signature.clone();
    let other = sign_message(b"payload", &curve.scalar_from_u64(43).unwrap(), CurveType::Secp256k1)
        .unwrap();
    wrong_key.public_key = other.public_key.clone();
    assert!(!verify_signature(&wrong_key, b"payload").unwrap());

    let mut bad_challenge = signature.clone();
    bad_challenge.challenge[0] ^= 0x80;
    assert!(!verify_signature(&bad_challenge, b"payload").unwrap());
}

#[test]
fn test_commit_verify_distinguishes_values() {
    let curve_type = CurveType::Secp256k1;
    let curve = Secp256k1::new();
    let pedersen = PedersenCommitment::new(curve_type).unwrap();
    let x7 = curve.scalar_from_u64(7).unwrap();
    let x8 = curve.scalar_from_u64(8).unwrap();
    let randomness = pedersen.generate_randomness();
    let commitment = pedersen.commit(&x7, &randomness).unwrap();
    assert!(pedersen.verify(&commitment, &x7, &randomness).unwrap());
    assert!(!pedersen.verify(&commitment, &x8, &randomness).unwrap());
}

#[test]
fn test_proof_cross_curve_params_returns_false() {
    let k1 = CurveType::Secp256k1;
    let pedersen_k1 = PedersenCommitment::new(k1).unwrap();
    let curve = Secp256k1::new();
    let value = curve.scalar_from_u64(9).unwrap();
    let randomness = pedersen_k1.generate_randomness();
    let mut proof = z_mpc::ZeroKnowledgeProof::new(k1);
    proof.prove(&pedersen_k1, &value, &randomness).unwrap();
    assert!(proof.verify(&pedersen_k1).unwrap());

    let pedersen_p256 = PedersenCommitment::new(CurveType::P256).unwrap();
    assert_eq!(proof.verify(&pedersen_p256).unwrap(), false);
}

#[test]
fn test_proof_tampering_detected() {
    let curve_type = CurveType::Secp256k1;
    let pedersen = PedersenCommitment::new(curve_type).unwrap();
    let curve = Secp256k1::new();
    let value = curve.scalar_from_u64(1234).unwrap();
    let randomness = pedersen.generate_randomness();
    let mut proof = z_mpc::ZeroKnowledgeProof::new(curve_type);
    proof.prove(&pedersen, &value, &randomness).unwrap();
    assert!(proof.verify(&pedersen).unwrap());

    // Tampering the challenge breaks the transcript re-derivation.
    let mut bad = proof.clone();
    bad.challenge[5] ^= 0x01;
    assert_eq!(bad.verify(&pedersen).unwrap(), false);

    // Tampering either response half breaks the group equation.
    let mut bad = proof.clone();
    bad.response[3] ^= 0x01;
    assert_eq!(bad.verify(&pedersen).unwrap(), false);
    let mut bad = proof.clone();
    bad.response[35] ^= 0x01;
    assert_eq!(bad.verify(&pedersen).unwrap(), false);

    // A truncated response is rejected outright.
    let mut bad = proof.clone();
    bad.response.pop();
    assert!(matches!(bad.verify(&pedersen), Err(Error::ZKProofError(_))));

    // Tampering the commitment or the auxiliary point can break the point
    // decoding itself, so anything but acceptance is a pass.
    let mut bad = proof.clone();
    bad.commitment[8] ^= 0x01;
    assert!(!matches!(bad.verify(&pedersen), Ok(true)));
    let mut bad = proof.clone();
    bad.public_point[8] ^= 0x01;
    assert!(!matches!(bad.verify(&pedersen), Ok(true)));
}

#[test]
fn test_signature_cross_curve_rejected() {
    let curve = Secp256k1::new();
    let private_key = curve.scalar_from_u64(5).unwrap();
    let signature = sign_message(b"msg", &private_key, CurveType::Secp256k1).unwrap();
    assert!(verify_signature(&signature, b"msg").unwrap());

    let mut foreign = signature.clone();
    foreign.curve_type = CurveType::P256;
    // The same bytes under another curve's parameters never verify; the
    // public key may not even decode there.
    assert!(!matches!(verify_signature(&foreign, b"msg"), Ok(true)));
}
