//! Independent recomputation of the hash transcripts with the raw crates:
//! these pin the domain-separation tags, the curve-name bytes and the
//! derivation of the second Pedersen generator.

use k256::elliptic_curve::ops::Reduce;
use k256::elliptic_curve::sec1::{FromEncodedPoint, ToEncodedPoint};
use sha2::Digest;
use z_mpc::{Curve, CurveType, PedersenCommitment};
use z_mpc::curve::Secp256k1;

fn reduce_k1(bytes: &[u8]) -> Vec<u8> {
    let mut arr = [0u8; 32];
    arr.copy_from_slice(bytes);
    <k256::Scalar as Reduce<k256::U256>>::reduce_bytes(&arr.into())
        .to_bytes()
        .to_vec()
}

#[test]
fn test_proof_challenge_matches_raw_transcript() {
    let curve_type = CurveType::Secp256k1;
    let pedersen = PedersenCommitment::new(curve_type).unwrap();
    let curve = Secp256k1::new();
    let value = curve.scalar_from_u64(99).unwrap();
    let randomness = pedersen.generate_randomness();
    let mut proof = z_mpc::ZeroKnowledgeProof::new(curve_type);
    proof.prove(&pedersen, &value, &randomness).unwrap();

    let mut input = Vec::new();
    input.extend_from_slice(b"z-mpc-zkp");
    input.extend_from_slice(b"secp256k1");
    input.extend_from_slice(&proof.commitment);
    input.extend_from_slice(&proof.public_point);
    let digest = sha2::Sha256::digest(&input);
    let expected = reduce_k1(&digest);
    assert_eq!(proof.challenge, expected);
}

#[test]
fn test_second_generator_matches_raw_derivation() {
    let pedersen = PedersenCommitment::new(CurveType::Secp256k1).unwrap();
    let mut expected: Option<Vec<u8>> = None;
    for ctr in 0u16..=255 {
        let mut input = b"z-mpc/pedersen/h/".to_vec();
        input.extend_from_slice(b"secp256k1");
        input.push(ctr as u8);
        let digest = sha2::Sha256::digest(&input);
        let mut candidate = vec![2u8];
        candidate.extend_from_slice(&digest);
        if let Ok(ep) = k256::EncodedPoint::from_bytes(&candidate) {
            let decoded: Option<k256::AffinePoint> =
                k256::AffinePoint::from_encoded_point(&ep).into();
            if let Some(pt) = decoded {
                let cleared =
                    (k256::ProjectivePoint::from(pt) * k256::Scalar::from(8u64)).to_affine();
                expected = Some(cleared.to_encoded_point(true).as_bytes().to_vec());
                break;
            }
        }
    }
    let (_, h) = pedersen.get_parameters();
    assert_eq!(h.bytes, expected.expect("some candidate below 256 must decode"));
}
