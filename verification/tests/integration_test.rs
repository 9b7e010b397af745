//! End-to-end tests of the sharing, commitment, proof and reconstruction
//! pipeline.

use z_mpc::pedersen::{commit_all_shares, verify_all_committed_shares};
use z_mpc::zkp::{batch_verify_proofs, prove_committed_share};
use z_mpc::{CurveType, LaurentSeries, PedersenCommitment, SharingParams};
use z_mpc::laurent::validate_params;

#[test]
fn test_complete_z_mpc_flow() {
    let curve_type = CurveType::Secp256k1;
    let threshold: usize = 3;
    let participants: usize = 5;

    let params = SharingParams { curve_type, threshold, participants };

    let laurent = LaurentSeries::new(&params).unwrap();

    let shares = laurent.generate_shares().unwrap();
    assert_eq!(shares.len(), participants);

    let committed_shares = commit_all_shares(&shares, curve_type).unwrap();
    assert_eq!(committed_shares.len(), participants);

    let all_valid = verify_all_committed_shares(&committed_shares, curve_type).unwrap();
    assert!(all_valid);

    let pedersen = PedersenCommitment::new(curve_type).unwrap();
    let mut proofs = Vec::new();
    for (share, committed_share) in shares.iter().zip(committed_shares.iter()) {
        let proof =
            prove_committed_share(&pedersen, share, &committed_share.randomness, curve_type)
                .unwrap();
        proofs.push(proof);
    }
    assert_eq!(proofs.len(), participants);

    let all_proofs_valid = batch_verify_proofs(&proofs, &pedersen).unwrap();
    assert!(all_proofs_valid);

    let result = laurent.reconstruct_secret(&shares).unwrap();
    assert!(result.valid);
    assert_eq!(result.participants_used.len(), threshold);
    println!("Secret: {}", hex::encode(&result.secret));
    println!("Participants used: {:?}", result.participants_used);

    let partial_shares = &shares[..threshold];
    let partial_result = laurent.reconstruct_secret(partial_shares).unwrap();
    assert!(partial_result.valid);
    assert_eq!(partial_result.secret, result.secret);
}

#[test]
fn test_multi_curve_support() {
    let curves = [CurveType::Secp256k1, CurveType::P256, CurveType::Edwards25519];
    let threshold: usize = 3;
    let participants: usize = 5;

    for curve_type in curves.iter() {
        let params = SharingParams { curve_type: *curve_type, threshold, participants };

        let laurent = LaurentSeries::new(&params).unwrap();

        let shares = laurent.generate_shares().unwrap();
        assert_eq!(shares.len(), participants);

        let committed_shares = commit_all_shares(&shares, *curve_type).unwrap();
        assert_eq!(committed_shares.len(), participants);

        let all_valid = verify_all_committed_shares(&committed_shares, *curve_type).unwrap();
        assert!(all_valid);

        let result = laurent.reconstruct_secret(&shares).unwrap();
        assert!(result.valid);

        println!("curve {:?} passed", curve_type);
    }
}

#[test]
fn test_error_handling() {
    let params = SharingParams {
        curve_type: CurveType::Secp256k1,
        threshold: 1,
        participants: 5,
    };
    let result = validate_params(&params);
    assert!(result.is_err());

    let params = SharingParams {
        curve_type: CurveType::Secp256k1,
        threshold: 5,
        participants: 3,
    };
    let result = validate_params(&params);
    assert!(result.is_err());

    let result = "invalid_curve".parse::<CurveType>();
    assert!(result.is_err());
}

#[test]
fn test_performance_benchmarks() {
    let curve_type = CurveType::Secp256k1;
    let threshold: usize = 3;
    let participants: usize = 10;

    let start = std::time::Instant::now();

    let params = SharingParams { curve_type, threshold, participants };
    let laurent = LaurentSeries::new(&params).unwrap();
    let shares = laurent.generate_shares().unwrap();
    let committed_shares = commit_all_shares(&shares, curve_type).unwrap();
    let _all_valid = verify_all_committed_shares(&committed_shares, curve_type).unwrap();
    let _result = laurent.reconstruct_secret(&shares).unwrap();

    let duration = start.elapsed();
    println!("{} participants processed in {:?}", participants, duration);
    assert!(duration < std::time::Duration::from_secs(5));
}

#[test]
fn test_security_properties() {
    let curve_type = CurveType::Secp256k1;
    let threshold: usize = 3;
    let participants: usize = 5;

    let params = SharingParams { curve_type, threshold, participants };
    let laurent = LaurentSeries::new(&params).unwrap();
    let shares = laurent.generate_shares().unwrap();

    let insufficient_shares = &shares[..threshold - 1];
    let result = laurent.reconstruct_secret(insufficient_shares);
    assert!(result.is_err());

    let params2 = SharingParams { curve_type, threshold, participants };
    let laurent2 = LaurentSeries::new(&params2).unwrap();
    let shares2 = laurent2.generate_shares().unwrap();

    let result1 = laurent.reconstruct_secret(&shares).unwrap();
    let result2 = laurent2.reconstruct_secret(&shares2).unwrap();
    assert_ne!(result1.secret, result2.secret);

    let pedersen = PedersenCommitment::new(curve_type).unwrap();
    let value = laurent.get_secret_key().unwrap();
    let randomness = pedersen.generate_randomness();
    let commitment = pedersen.commit(&value, &randomness).unwrap();

    let wrong_value = laurent2.get_secret_key().unwrap();
    let is_valid = pedersen.verify(&commitment, &wrong_value, &randomness).unwrap();
    assert!(!is_valid);
}
