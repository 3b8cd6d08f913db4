use tecdsa_complaints::NodeIndex;
use tecdsa_complaints::ThresholdEcdsaError;
use tecdsa_complaints::commitment::CommitmentOpening;
use tecdsa_complaints::commitment::PedersenCommitment;
use tecdsa_complaints::commitment::PolynomialCommitment;
use tecdsa_complaints::commitment::SimpleCommitment;
use tecdsa_complaints::complaints::IDkgComplaintInternal;
use tecdsa_complaints::complaints::IDkgDealingInternal;
use tecdsa_complaints::complaints::generate_complaints;
use tecdsa_complaints::group::EccCurveType;
use tecdsa_complaints::group::EccPoint;
use tecdsa_complaints::group::EccScalar;
use tecdsa_complaints::mega::MEGaCiphertext;
use tecdsa_complaints::mega::MEGaCiphertextPair;
use tecdsa_complaints::mega::MEGaCiphertextSingle;
use tecdsa_complaints::mega::MEGaPrivateKey;
use tecdsa_complaints::mega::MEGaPublicKey;
use tecdsa_complaints::mega::mega_mask;
use tecdsa_complaints::seed::Seed;

const CURVE: EccCurveType = EccCurveType::K256;

fn scalar(v: u64) -> EccScalar {
    EccScalar::from_u64(CURVE, v)
}

fn keypair(v: u64) -> (MEGaPrivateKey, MEGaPublicKey) {
    let sk = MEGaPrivateKey::from_scalar(scalar(v));
    let pk = sk.public_key();
    (sk, pk)
}

/// Build a `Single`/`Simple` dealing whose ciphertext for `receiver_index`
/// decrypts to `share`, and whose commitment commits to `committed`.
/// An honest dealing has `share == committed`.
fn single_dealing(
    share: u64,
    committed: u64,
    receiver_index: NodeIndex,
    n_receivers: usize,
    dealer_index: NodeIndex,
    receiver_key: &MEGaPublicKey,
    receiver_secret: &MEGaPrivateKey,
    associated_data: &[u8],
) -> IDkgDealingInternal {
    let beta = scalar(97);
    let generator = EccPoint::generator_g(CURVE);
    let ephemeral_key = generator.scalar_mul(&beta).unwrap();
    let shared_secret = ephemeral_key.scalar_mul(receiver_secret.secret_scalar()).unwrap();
    let mut ctexts = Vec::new();
    for i in 0..n_receivers {
        if i as NodeIndex == receiver_index {
            let mask = mega_mask(
                associated_data,
                dealer_index,
                receiver_index,
                receiver_key.public_point(),
                &shared_secret,
                0,
            );
            ctexts.push(scalar(share).add(&mask).unwrap());
        } else {
            ctexts.push(scalar(1000 + i as u64));
        }
    }
    let commitment_point = generator.scalar_mul(&scalar(committed)).unwrap();
    IDkgDealingInternal {
        ciphertext: MEGaCiphertext::Single(MEGaCiphertextSingle { ephemeral_key, ctexts }),
        commitment: PolynomialCommitment::Simple(SimpleCommitment {
            points: vec![commitment_point],
        }),
    }
}

/// Build a `Pairs`/`Pedersen` dealing in the same way, with openings
/// `(share_v, share_m)` and commitment to `(committed_v, committed_m)`.
fn pairs_dealing(
    share_v: u64,
    share_m: u64,
    committed_v: u64,
    committed_m: u64,
    receiver_index: NodeIndex,
    n_receivers: usize,
    dealer_index: NodeIndex,
    receiver_key: &MEGaPublicKey,
    receiver_secret: &MEGaPrivateKey,
    associated_data: &[u8],
) -> IDkgDealingInternal {
    let beta = scalar(55);
    let generator = EccPoint::generator_g(CURVE);
    let generator_h = EccPoint::generator_h(CURVE);
    let ephemeral_key = generator.scalar_mul(&beta).unwrap();
    let shared_secret = ephemeral_key.scalar_mul(receiver_secret.secret_scalar()).unwrap();
    let mut ctexts = Vec::new();
    for i in 0..n_receivers {
        if i as NodeIndex == receiver_index {
            let mask0 = mega_mask(
                associated_data,
                dealer_index,
                receiver_index,
                receiver_key.public_point(),
                &shared_secret,
                0,
            );
            let mask1 = mega_mask(
                associated_data,
                dealer_index,
                receiver_index,
                receiver_key.public_point(),
                &shared_secret,
                1,
            );
            ctexts.push((
                scalar(share_v).add(&mask0).unwrap(),
                scalar(share_m).add(&mask1).unwrap(),
            ));
        } else {
            ctexts.push((scalar(2000 + i as u64), scalar(3000 + i as u64)));
        }
    }
    let gv = generator.scalar_mul(&scalar(committed_v)).unwrap();
    let hm = generator_h.scalar_mul(&scalar(committed_m)).unwrap();
    let commitment_point = gv.add_points(&hm).unwrap();
    IDkgDealingInternal {
        ciphertext: MEGaCiphertext::Pairs(MEGaCiphertextPair { ephemeral_key, ctexts }),
        commitment: PolynomialCommitment::Pedersen(PedersenCommitment {
            points: vec![commitment_point],
        }),
    }
}

#[test]
fn honest_dealing_opens_successfully() {
    let (sk, pk) = keypair(42);
    let assoc = b"round-7";
    let dealing = single_dealing(5, 5, 0, 3, 1, &pk, &sk, assoc);
    let opening = dealing
        .ciphertext
        .decrypt_and_check(&dealing.commitment, assoc, 1, 0, &sk, &pk)
        .unwrap();
    assert_eq!(opening, CommitmentOpening::Simple(scalar(5)));
}

#[test]
fn bad_dealing_fails_to_open() {
    let (sk, pk) = keypair(42);
    let assoc = b"round-7";
    let dealing = single_dealing(5, 6, 0, 3, 1, &pk, &sk, assoc);
    let opening = dealing
        .ciphertext
        .decrypt_and_check(&dealing.commitment, assoc, 1, 0, &sk, &pk);
    assert_eq!(opening, Err(ThresholdEcdsaError::InvalidCommitment));
}

#[test]
fn generate_complaints_skips_honest_dealer() {
    let (sk, pk) = keypair(42);
    let assoc = b"round-7";
    let honest = single_dealing(5, 5, 0, 3, 0, &pk, &sk, assoc);
    let bad = single_dealing(5, 6, 0, 3, 1, &pk, &sk, assoc);
    let dealings = vec![(0, honest), (1, bad)];
    let seed = Seed::from_bytes(b"root seed");
    let complaints = generate_complaints(&dealings, assoc, 0, &sk, &pk, &seed).unwrap();
    assert_eq!(complaints.len(), 1);
    assert_eq!(complaints[0].0, 1);
}

#[test]
fn generate_complaints_all_honest_is_invalid_arguments() {
    let (sk, pk) = keypair(42);
    let assoc = b"round-7";
    let honest = single_dealing(5, 5, 0, 3, 0, &pk, &sk, assoc);
    let dealings = vec![(0, honest)];
    let seed = Seed::from_bytes(b"root seed");
    let r = generate_complaints(&dealings, assoc, 0, &sk, &pk, &seed);
    assert_eq!(r, Err(ThresholdEcdsaError::InvalidArguments));
}

#[test]
fn valid_complaint_verifies() {
    let (sk, pk) = keypair(42);
    let assoc = b"round-7";
    let bad = single_dealing(5, 6, 0, 3, 1, &pk, &sk, assoc);
    let dealings = vec![(1, bad.clone())];
    let seed = Seed::from_bytes(b"root seed");
    let complaints = generate_complaints(&dealings, assoc, 0, &sk, &pk, &seed).unwrap();
    let complaint = &complaints[0].1;
    assert_eq!(complaint.verify(&bad, 1, 0, &pk, assoc), Ok(()));
}

#[test]
fn valid_pairs_complaint_verifies() {
    let (sk, pk) = keypair(42);
    let assoc = b"round-9";
    let bad = pairs_dealing(5, 7, 6, 7, 1, 3, 2, &pk, &sk, assoc);
    let dealings = vec![(2, bad.clone())];
    let seed = Seed::from_bytes(b"root seed");
    let complaints = generate_complaints(&dealings, assoc, 1, &sk, &pk, &seed).unwrap();
    let complaint = &complaints[0].1;
    assert_eq!(complaint.verify(&bad, 2, 1, &pk, assoc), Ok(()));
}

#[test]
fn tampered_shared_secret_fails_proof() {
    let (sk, pk) = keypair(42);
    let assoc = b"round-7";
    let bad = single_dealing(5, 6, 0, 3, 1, &pk, &sk, assoc);
    let seed = Seed::from_bytes(b"root seed");
    let complaint = IDkgComplaintInternal::new(&seed, &bad, 1, 0, &sk, &pk, assoc).unwrap();
    let bytes = complaint.serialize().unwrap();
    // Flip each byte of the shared-secret segment of the wire encoding in
    // turn; every tampering must yield a typed rejection, never a pass.
    for pos in 19..bytes.len() {
        let mut tampered = bytes.clone();
        tampered[pos] ^= 1;
        match IDkgComplaintInternal::deserialize(&tampered) {
            Err(e) => assert_eq!(e, ThresholdEcdsaError::SerializationError),
            Ok(c) => {
                assert_ne!(c.verify(&bad, 1, 0, &pk, assoc), Ok(()));
            }
        }
    }
    // Tampering the point value directly fails proof verification.
    let mut forged = complaint.clone();
    forged.shared_secret = EccPoint::from_u64(CURVE, forged.shared_secret.value() ^ 1);
    assert_eq!(
        forged.verify(&bad, 1, 0, &pk, assoc),
        Err(ThresholdEcdsaError::InvalidProof)
    );
}

#[test]
fn dishonest_complaint_is_rejected() {
    let (sk, pk) = keypair(42);
    let assoc = b"round-7";
    let honest = single_dealing(5, 5, 0, 3, 1, &pk, &sk, assoc);
    let seed = Seed::from_bytes(b"root seed");
    let complaint = IDkgComplaintInternal::new(&seed, &honest, 1, 0, &sk, &pk, assoc).unwrap();
    assert_eq!(
        complaint.verify(&honest, 1, 0, &pk, assoc),
        Err(ThresholdEcdsaError::InvalidComplaint)
    );
}

#[test]
fn mismatched_variants_fail_for_every_index_combination() {
    let (sk, pk) = keypair(42);
    let assoc = b"round-7";
    for dealer in 0..3u32 {
        for complainer in 0..3u32 {
            // Single ciphertext under a Pedersen commitment.
            let single = single_dealing(5, 6, complainer, 3, dealer, &pk, &sk, assoc);
            let pedersen = pairs_dealing(5, 7, 6, 7, complainer, 3, dealer, &pk, &sk, assoc);
            let crossed = IDkgDealingInternal {
                ciphertext: single.ciphertext.clone(),
                commitment: pedersen.commitment.clone(),
            };
            let seed = Seed::from_bytes(b"root seed");
            let complaint =
                IDkgComplaintInternal::new(&seed, &crossed, dealer, complainer, &sk, &pk, assoc)
                    .unwrap();
            assert_eq!(
                complaint.verify(&crossed, dealer, complainer, &pk, assoc),
                Err(ThresholdEcdsaError::UnexpectedCommitmentType)
            );
            // Pairs ciphertext under a Simple commitment.
            let crossed_back = IDkgDealingInternal {
                ciphertext: pedersen.ciphertext.clone(),
                commitment: single.commitment.clone(),
            };
            let complaint = IDkgComplaintInternal::new(
                &seed,
                &crossed_back,
                dealer,
                complainer,
                &sk,
                &pk,
                assoc,
            )
            .unwrap();
            assert_eq!(
                complaint.verify(&crossed_back, dealer, complainer, &pk, assoc),
                Err(ThresholdEcdsaError::UnexpectedCommitmentType)
            );
        }
    }
}

#[test]
fn generate_complaints_is_deterministic() {
    let (sk, pk) = keypair(42);
    let assoc = b"round-7";
    let bad_a = single_dealing(5, 6, 0, 3, 0, &pk, &sk, assoc);
    let bad_b = pairs_dealing(5, 7, 6, 8, 0, 3, 4, &pk, &sk, assoc);
    let dealings = vec![(0, bad_a), (4, bad_b)];
    let seed1 = Seed::from_bytes(b"root seed");
    let seed2 = Seed::from_bytes(b"root seed");
    let run1 = generate_complaints(&dealings, assoc, 0, &sk, &pk, &seed1).unwrap();
    let run2 = generate_complaints(&dealings, assoc, 0, &sk, &pk, &seed2).unwrap();
    assert_eq!(run1.len(), run2.len());
    for (one, two) in run1.iter().zip(run2.iter()) {
        assert_eq!(one.0, two.0);
        assert_eq!(
            one.1.serialize().unwrap(),
            two.1.serialize().unwrap()
        );
    }
}

#[test]
fn proof_is_bound_to_indices_and_context() {
    let (sk, pk) = keypair(42);
    let assoc = b"context-A";
    let bad = single_dealing(5, 6, 0, 4, 1, &pk, &sk, assoc);
    let seed = Seed::from_bytes(b"root seed");
    let complaint = IDkgComplaintInternal::new(&seed, &bad, 1, 0, &sk, &pk, assoc).unwrap();
    assert_eq!(complaint.verify(&bad, 1, 0, &pk, assoc), Ok(()));
    // A different complainer index changes the transcript: rejected.
    assert_eq!(
        complaint.verify(&bad, 1, 2, &pk, assoc),
        Err(ThresholdEcdsaError::InvalidProof)
    );
    // A different dealer index changes the transcript: rejected.
    assert_eq!(
        complaint.verify(&bad, 2, 0, &pk, assoc),
        Err(ThresholdEcdsaError::InvalidProof)
    );
    // Different associated data changes the transcript: rejected.
    assert_eq!(
        complaint.verify(&bad, 1, 0, &pk, b"context-B"),
        Err(ThresholdEcdsaError::InvalidProof)
    );
}

#[test]
fn out_of_range_complainer_is_invalid_recipients() {
    let (sk, pk) = keypair(42);
    let assoc = b"round-7";
    let bad = single_dealing(5, 6, 0, 3, 1, &pk, &sk, assoc);
    let seed = Seed::from_bytes(b"root seed");
    // The proof is created for complainer index 9, so it passes, but the
    // ciphertext has only 3 recipient slots.
    let complaint = IDkgComplaintInternal::new(&seed, &bad, 1, 9, &sk, &pk, assoc).unwrap();
    assert_eq!(
        complaint.verify(&bad, 1, 9, &pk, assoc),
        Err(ThresholdEcdsaError::InvalidRecipients)
    );
}

#[test]
fn cross_curve_operations_are_rejected() {
    let a = EccScalar::from_u64(EccCurveType::K256, 5);
    let b = EccScalar::from_u64(EccCurveType::P256, 5);
    assert_eq!(a.add(&b), Err(ThresholdEcdsaError::CurveMismatchError));
    assert_eq!(a.mul(&b), Err(ThresholdEcdsaError::CurveMismatchError));
    let p = EccPoint::generator_g(EccCurveType::K256);
    assert_eq!(p.scalar_mul(&b), Err(ThresholdEcdsaError::CurveMismatchError));
    // A complaint whose shared secret lives on the wrong curve is rejected
    // before any decryption.
    let (sk, pk) = keypair(42);
    let assoc = b"round-7";
    let bad = single_dealing(5, 6, 0, 3, 1, &pk, &sk, assoc);
    let seed = Seed::from_bytes(b"root seed");
    let mut complaint = IDkgComplaintInternal::new(&seed, &bad, 1, 0, &sk, &pk, assoc).unwrap();
    complaint.shared_secret = EccPoint::from_u64(EccCurveType::P256, 11);
    assert_eq!(
        complaint.verify(&bad, 1, 0, &pk, assoc),
        Err(ThresholdEcdsaError::CurveMismatchError)
    );
}

#[test]
fn degree_one_commitment_checks_at_the_right_index_only() {
    let generator = EccPoint::generator_g(CURVE);
    let a0 = scalar(3);
    let a1 = scalar(4);
    let commitment = PolynomialCommitment::Simple(SimpleCommitment {
        points: vec![
            generator.scalar_mul(&a0).unwrap(),
            generator.scalar_mul(&a1).unwrap(),
        ],
    });
    let receiver: NodeIndex = 2;
    // The receiver's share is the polynomial evaluated at index + 1.
    let x = scalar(receiver as u64 + 1);
    let share = a0.add(&a1.mul(&x).unwrap()).unwrap();
    let opening = CommitmentOpening::Simple(share);
    assert_eq!(commitment.check_opening(receiver, &opening), Ok(true));
    assert_eq!(commitment.check_opening(receiver + 1, &opening), Ok(false));
    let wrong_kind = CommitmentOpening::Pedersen(share, scalar(0));
    assert_eq!(
        commitment.check_opening(receiver, &wrong_kind),
        Err(ThresholdEcdsaError::UnexpectedCommitmentType)
    );
}

#[test]
fn seed_derivation_is_labeled_and_deterministic() {
    let seed = Seed::from_bytes(b"root seed");
    // The digest wrapper must not hand its input back unchanged: an empty
    // input still yields a full 32-byte state.
    let empty = Seed::from_bytes(b"");
    assert_eq!(empty.state.len(), 32);
    assert_ne!(seed.state, empty.state);
    let child_a = seed.derive(b"label-a");
    let child_b = seed.derive(b"label-b");
    let child_a_again = seed.derive(b"label-a");
    assert_eq!(child_a, child_a_again);
    assert_ne!(child_a, child_b);
    assert_ne!(child_a.state, seed.state);
}
