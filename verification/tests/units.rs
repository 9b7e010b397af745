//! Unit tests of the curve layer, the Laurent engine, the participant table
//! and the coordinator.

use z_mpc::curve::{create_curve, Ed25519, P256, Secp256k1};
use z_mpc::network::{CoordinatorState, NetworkMessage, Participant, ParticipantTable,
    ProtocolCoordinator};
use z_mpc::laurent::{random_params, validate_params};
use z_mpc::{Curve, CurveType, Error, LaurentSeries, PedersenCommitment, Point, Scalar, Share,
    SharingParams};

fn all_curves() -> Vec<Box<dyn Curve>> {
    vec![
        create_curve(CurveType::Secp256k1),
        create_curve(CurveType::P256),
        create_curve(CurveType::Edwards25519),
    ]
}

#[test]
fn test_scalar_arithmetic_exact() {
    for curve in all_curves() {
        let two = curve.scalar_from_u64(2).unwrap();
        let three = curve.scalar_from_u64(3).unwrap();
        let five = curve.scalar_from_u64(5).unwrap();
        let six = curve.scalar_from_u64(6).unwrap();
        let one = curve.scalar_from_u64(1).unwrap();
        assert_eq!(two.add(&three).unwrap().value, five.value);
        assert_eq!(two.mul(&three).unwrap().value, six.value);
        let seven = curve.scalar_from_u64(7).unwrap();
        let inv = seven.invert().unwrap();
        assert_eq!(seven.mul(&inv).unwrap().value, one.value);
        let zero = curve.scalar_from_u64(0).unwrap();
        assert_eq!(zero.invert().unwrap().value, zero.value);
    }
}

#[test]
fn test_scalar_from_u64_is_big_endian() {
    let curve = Secp256k1::new();
    let s = curve.scalar_from_u64(0x0102030405060708).unwrap();
    assert_eq!(
        hex::encode(s.as_bytes()),
        "0000000000000000000000000000000000000000000000000102030405060708"
    );
}

#[test]
fn test_order_constants() {
    assert_eq!(
        hex::encode(Secp256k1::new().order().value),
        "fffffffffffffffffffffffffffffffebaaedce6af48a03bbfd25e8cd0364141"
    );
    assert_eq!(
        hex::encode(P256::new().order().value),
        "ffffffff00000000ffffffffffffffffbce6faada7179e84f3b9cac2fc632551"
    );
    assert_eq!(
        hex::encode(Ed25519::new().order().value),
        "1000000000000000000000000000000014def9dea2f79cd65812631a5cf5d3ed"
    );
    assert_eq!(
        hex::encode(Secp256k1::new().field_modulus().value),
        "fffffffffffffffffffffffffffffffffffffffffffffffffffffffefffffc2f"
    );
}

#[test]
fn test_scalar_reduction_wraps_order() {
    // The order itself reduces to zero.
    for curve in all_curves() {
        let order = curve.order();
        let reduced = curve.scalar_from_bytes(order.as_bytes()).unwrap();
        let zero = curve.scalar_from_u64(0).unwrap();
        assert_eq!(reduced.value, zero.value);
    }
}

#[test]
fn test_point_arithmetic_consistent() {
    for curve in all_curves() {
        let g = curve.generator();
        let one = curve.scalar_from_u64(1).unwrap();
        let two = curve.scalar_from_u64(2).unwrap();
        let g1 = g.mul(&one).unwrap();
        assert_eq!(g1.bytes, g.bytes);
        let doubled = g.mul(&two).unwrap();
        let summed = g.add(&g).unwrap();
        assert_eq!(doubled.bytes, summed.bytes);
        let round = Point::from_compressed_bytes(curve.curve_type(), &g.bytes).unwrap();
        assert_eq!(round.to_compressed_bytes().unwrap(), g.bytes);
    }
}

#[test]
fn test_invalid_point_rejected() {
    let garbage = vec![0xffu8; 33];
    assert!(matches!(
        Point::from_compressed_bytes(CurveType::Secp256k1, &garbage),
        Err(Error::CurveError(_))
    ));
    // A wrong-length encoding is never a point.
    let garbage31 = vec![0xffu8; 31];
    assert!(Point::from_compressed_bytes(CurveType::Edwards25519, &garbage31).is_err());
    assert!(Point::from_compressed_bytes(CurveType::Secp256k1, &garbage31).is_err());
}

#[test]
fn test_cross_curve_operations_rejected() {
    let k1 = Secp256k1::new();
    let p256 = P256::new();
    let a = k1.scalar_from_u64(1).unwrap();
    let b = p256.scalar_from_u64(1).unwrap();
    assert!(matches!(a.add(&b), Err(Error::CurveError(_))));
    assert!(matches!(a.mul(&b), Err(Error::CurveError(_))));
    let ga = k1.generator();
    let gb = p256.generator();
    assert!(matches!(ga.add(&gb), Err(Error::CurveError(_))));
    assert!(matches!(ga.mul(&b), Err(Error::CurveError(_))));
}

#[test]
fn test_shares_verify_and_tampered_share_fails() {
    let params = SharingParams {
        curve_type: CurveType::Edwards25519,
        threshold: 2,
        participants: 4,
    };
    let laurent = LaurentSeries::new(&params).unwrap();
    let shares = laurent.generate_shares().unwrap();
    for share in &shares {
        assert!(laurent.verify_share(share).unwrap());
    }
    let mut tampered = shares[0].clone();
    tampered.value[31] ^= 0x01;
    assert!(!laurent.verify_share(&tampered).unwrap());
}

#[test]
fn test_secret_key_and_coefficients() {
    let params = SharingParams {
        curve_type: CurveType::P256,
        threshold: 4,
        participants: 6,
    };
    let laurent = LaurentSeries::new(&params).unwrap();
    let sk1 = laurent.get_secret_key().unwrap();
    let sk2 = laurent.get_secret_key().unwrap();
    assert_eq!(sk1.value, sk2.value);
    let coeffs = laurent.get_coefficients();
    assert_eq!(coeffs.a_coeffs.len(), 4);
    assert_eq!(coeffs.b_coeffs.len(), 4);
    assert_eq!(coeffs.b_coeffs[0], laurent.b_coeffs[0].value);
}

#[test]
fn test_share_builders() {
    let share = Share::new(7, vec![1, 2, 3]);
    assert_eq!(share.id, 7);
    assert!(share.commitment.is_none());
    let share = share.with_commitment(vec![9]).with_proof(vec![8]);
    assert_eq!(share.commitment, Some(vec![9]));
    assert_eq!(share.proof, Some(vec![8]));
    // A three-byte value is not a scalar.
    assert!(share.as_scalar(CurveType::Secp256k1).is_err());
}

#[test]
fn test_random_params_in_range() {
    let params = random_params(CurveType::Secp256k1);
    assert!(params.threshold >= 2 && params.threshold <= 10);
    assert!(params.participants >= params.threshold && params.participants <= 20);
    assert!(validate_params(&params).is_ok());
}

#[test]
fn test_batch_commit_and_verify() {
    let curve_type = CurveType::Secp256k1;
    let curve = Secp256k1::new();
    let pedersen = PedersenCommitment::new(curve_type).unwrap();
    let values: Vec<Scalar> = (1u64..=3).map(|v| curve.scalar_from_u64(v).unwrap()).collect();
    let randomness: Vec<Vec<u8>> = (0..3).map(|_| pedersen.generate_randomness()).collect();
    let commitments = pedersen.batch_commit(&values, &randomness).unwrap();
    assert!(pedersen.batch_verify(&commitments, &values, &randomness).unwrap());

    let mut wrong = randomness.clone();
    wrong[1] = pedersen.generate_randomness();
    assert!(!pedersen.batch_verify(&commitments, &values, &wrong).unwrap());

    assert!(matches!(
        pedersen.batch_commit(&values, &randomness[..2]),
        Err(Error::InvalidInput(_))
    ));
}

#[test]
fn test_commitment_proof_roundtrip() {
    let curve_type = CurveType::Edwards25519;
    let curve = Ed25519::new();
    let pedersen = PedersenCommitment::new(curve_type).unwrap();
    let value = curve.scalar_from_u64(77).unwrap();
    let randomness = pedersen.generate_randomness();
    let commitment = pedersen.commit_with_randomness(&value, &randomness).unwrap();
    let proof = z_mpc::CommitmentProof::new(commitment.clone(), randomness, curve_type);
    assert!(proof.verify(&value).unwrap());
    let other = curve.scalar_from_u64(78).unwrap();
    assert!(!proof.verify(&other).unwrap());
    assert_eq!(proof.commitment_bytes(), commitment.as_slice());
}

#[test]
fn test_fresh_randomness_differs() {
    let pedersen = PedersenCommitment::new(CurveType::Secp256k1).unwrap();
    let r1 = pedersen.generate_randomness();
    let r2 = pedersen.generate_randomness();
    assert_eq!(r1.len(), 32);
    assert_eq!(r2.len(), 32);
    assert_ne!(r1, r2);
    let s1 = pedersen.get_parameters();
    let s2 = PedersenCommitment::new(CurveType::Secp256k1).unwrap().get_parameters();
    // The derived generators are deterministic per curve.
    assert_eq!(s1.1.bytes, s2.1.bytes);
}

#[test]
fn test_participant_table() {
    let mut table = ParticipantTable::new();
    assert!(!table.contains(1));
    table.add_participant(Participant {
        id: 1,
        address: "127.0.0.1:8001".to_owned(),
        curve_type: CurveType::Secp256k1,
        is_online: false,
        last_heartbeat: 0,
    });
    assert!(table.contains(1));
    table.record_heartbeat(1, 99);
    assert!(table.table.get(&1).unwrap().is_online);
    assert_eq!(table.table.get(&1).unwrap().last_heartbeat, 99);
    table.record_heartbeat(2, 5);
    assert!(!table.contains(2));
    table.remove_participant(1);
    assert!(!table.contains(1));
}

#[test]
fn test_coordinator_lifecycle() {
    let params = SharingParams {
        curve_type: CurveType::Secp256k1,
        threshold: 2,
        participants: 3,
    };
    let mut dealer = ProtocolCoordinator::new(1);
    assert_eq!(dealer.state, CoordinatorState::Uninitialised);
    dealer.initialize(&params).unwrap();
    assert_eq!(dealer.state, CoordinatorState::Initialised);
    assert!(matches!(dealer.initialize(&params), Err(Error::InvalidInput(_))));

    let message = dealer.distribute().unwrap();
    assert_eq!(dealer.state, CoordinatorState::Dealt);
    let shares = match &message {
        NetworkMessage::ShareDistribution { shares, .. } => shares.clone(),
        _ => panic!("expected a share distribution"),
    };

    let mut receiver = ProtocolCoordinator::new(2);
    receiver.initialize(&params).unwrap();
    assert!(matches!(
        receiver.ingest(&NetworkMessage::Heartbeat { sender_id: 1, timestamp: 0 }),
        Err(Error::InvalidInput(_))
    ));
    receiver.ingest(&message).unwrap();
    assert_eq!(receiver.state, CoordinatorState::Verified);

    let result = receiver.reconstruct(&shares).unwrap();
    assert!(result.valid);
    assert_eq!(receiver.state, CoordinatorState::Reconstructed);

    let mut early = ProtocolCoordinator::new(3);
    early.initialize(&params).unwrap();
    assert!(matches!(early.reconstruct(&shares), Err(Error::InvalidInput(_))));
}

#[test]
fn test_coordinator_rejects_tampered_distribution() {
    let params = SharingParams {
        curve_type: CurveType::Secp256k1,
        threshold: 2,
        participants: 3,
    };
    let mut dealer = ProtocolCoordinator::new(1);
    dealer.initialize(&params).unwrap();
    let message = dealer.distribute().unwrap();

    let mut receiver = ProtocolCoordinator::new(2);
    receiver.initialize(&params).unwrap();
    match message {
        NetworkMessage::ShareDistribution { sender_id, shares, mut commitments, proofs, curve_type } => {
            commitments[0].share.value[31] ^= 0x01;
            let tampered = NetworkMessage::ShareDistribution {
                sender_id,
                shares,
                commitments,
                proofs,
                curve_type,
            };
            assert!(matches!(
                receiver.ingest(&tampered),
                Err(Error::CommitmentError(_))
            ));
            assert_eq!(receiver.state, CoordinatorState::Initialised);
        },
        _ => panic!("expected a share distribution"),
    }
}

#[test]
fn test_curve_names_parse() {
    assert_eq!("k1".parse::<CurveType>().unwrap(), CurveType::Secp256k1);
    assert_eq!("SECP256K1".parse::<CurveType>().unwrap(), CurveType::Secp256k1);
    assert_eq!("r1".parse::<CurveType>().unwrap(), CurveType::P256);
    assert_eq!("p256".parse::<CurveType>().unwrap(), CurveType::P256);
    assert_eq!("ed25519".parse::<CurveType>().unwrap(), CurveType::Edwards25519);
    assert_eq!("Edwards25519".parse::<CurveType>().unwrap(), CurveType::Edwards25519);
    assert!(matches!("foo".parse::<CurveType>(), Err(Error::InvalidCurve(_))));
}

#[test]
fn test_proof_wire_roundtrip() {
    for curve_type in [CurveType::Secp256k1, CurveType::P256, CurveType::Edwards25519] {
        let pedersen = PedersenCommitment::new(curve_type).unwrap();
        let curve = create_curve(curve_type);
        let value = curve.scalar_from_u64(321).unwrap();
        let randomness = pedersen.generate_randomness();
        let mut proof = z_mpc::ZeroKnowledgeProof::new(curve_type);
        proof.prove(&pedersen, &value, &randomness).unwrap();

        let wire = proof.to_bytes().unwrap();
        let expected_len = match curve_type {
            CurveType::Edwards25519 => 97 + 64,
            _ => 97 + 66,
        };
        assert_eq!(wire.len(), expected_len);
        let parsed = z_mpc::ZeroKnowledgeProof::from_bytes(&wire).unwrap();
        assert_eq!(parsed.curve_type, proof.curve_type);
        assert_eq!(parsed.commitment, proof.commitment);
        assert_eq!(parsed.challenge, proof.challenge);
        assert_eq!(parsed.response, proof.response);
        assert_eq!(parsed.public_point, proof.public_point);
        assert!(parsed.verify(&pedersen).unwrap());

        let mut bad_tag = wire.clone();
        bad_tag[0] = 9;
        assert!(matches!(
            z_mpc::ZeroKnowledgeProof::from_bytes(&bad_tag),
            Err(Error::SerializationError(_))
        ));
        let mut truncated = wire.clone();
        truncated.pop();
        assert!(matches!(
            z_mpc::ZeroKnowledgeProof::from_bytes(&truncated),
            Err(Error::SerializationError(_))
        ));
    }
}

#[test]
fn test_signature_wire_roundtrip() {
    let curve = Secp256k1::new();
    let key = curve.scalar_from_u64(11).unwrap();
    let signature = z_mpc::zkp::sign_message(b"bytes", &key, CurveType::Secp256k1).unwrap();
    let wire = signature.to_bytes().unwrap();
    assert_eq!(wire.len(), 65 + 33);
    assert_eq!(wire[0], 1);
    let parsed = z_mpc::SchnorrSignature::from_bytes(&wire).unwrap();
    assert_eq!(parsed.public_key, signature.public_key);
    assert_eq!(parsed.challenge, signature.challenge);
    assert_eq!(parsed.response, signature.response);
    assert!(z_mpc::zkp::verify_signature(&parsed, b"bytes").unwrap());
    assert!(matches!(
        z_mpc::SchnorrSignature::from_bytes(&[]),
        Err(Error::SerializationError(_))
    ));
}

#[test]
fn test_generator_constants() {
    assert_eq!(
        hex::encode(&Secp256k1::new().generator().bytes),
        "0279be667ef9dcbbac55a06295ce870b07029bfcdb2dce28d959f2815b16f81798"
    );
    assert_eq!(
        hex::encode(&P256::new().generator().bytes),
        "036b17d1f2e12c4247f8bce6e563a440f277037d812deb33a0f4a13945d898c296"
    );
    assert_eq!(
        hex::encode(&Ed25519::new().generator().bytes),
        "5866666666666666666666666666666666666666666666666666666666666666"
    );
}

#[test]
fn test_batch_verify_never_accepts_malformed_value() {
    let curve_type = CurveType::Secp256k1;
    let curve = Secp256k1::new();
    let pedersen = PedersenCommitment::new(curve_type).unwrap();
    let good = curve.scalar_from_u64(4).unwrap();
    let randomness = vec![pedersen.generate_randomness(), pedersen.generate_randomness()];
    let commitments = pedersen
        .batch_commit(&[good.clone(), curve.scalar_from_u64(5).unwrap()], &randomness)
        .unwrap();
    // A 31-byte scalar is malformed: the batch is never accepted.
    let short = Scalar::new(curve_type, vec![1u8; 31]);
    let result = pedersen.batch_verify(&commitments, &[good, short], &randomness);
    assert!(!matches!(result, Ok(true)));
    // Committing with a malformed value is a curve error.
    let short2 = Scalar::new(curve_type, vec![1u8; 31]);
    let ok = curve.scalar_from_u64(6).unwrap();
    assert!(matches!(
        pedersen.batch_commit(&[ok, short2], &randomness),
        Err(Error::CurveError(_))
    ));
}

#[test]
fn test_coordinator_rejects_cross_curve_distribution() {
    let k1_params = SharingParams {
        curve_type: CurveType::Secp256k1,
        threshold: 2,
        participants: 3,
    };
    let p256_params = SharingParams {
        curve_type: CurveType::P256,
        threshold: 2,
        participants: 3,
    };
    let mut dealer = ProtocolCoordinator::new(1);
    dealer.initialize(&p256_params).unwrap();
    let message = dealer.distribute().unwrap();

    let mut receiver = ProtocolCoordinator::new(2);
    receiver.initialize(&k1_params).unwrap();
    assert!(matches!(receiver.ingest(&message), Err(Error::CurveError(_))));
    assert_eq!(receiver.state, CoordinatorState::Initialised);
}
