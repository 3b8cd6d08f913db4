use tecdsa_complaints::ThresholdEcdsaError;
use tecdsa_complaints::complaints::IDkgComplaint;
use tecdsa_complaints::complaints::IDkgComplaintInternal;
use tecdsa_complaints::group::EccCurveType;
use tecdsa_complaints::group::EccPoint;
use tecdsa_complaints::group::EccScalar;
use tecdsa_complaints::zk::ProofOfDLogEquivalence;

fn sample_complaint() -> IDkgComplaintInternal {
    IDkgComplaintInternal {
        proof: ProofOfDLogEquivalence {
            challenge: EccScalar::from_u64(EccCurveType::K256, 123456789),
            response: EccScalar::from_u64(EccCurveType::K256, 987654321),
        },
        shared_secret: EccPoint::from_u64(EccCurveType::K256, 555555555),
    }
}

#[test]
fn serialize_then_deserialize_round_trips() {
    let complaint = sample_complaint();
    let bytes = complaint.serialize().unwrap();
    assert_eq!(bytes.len(), 28);
    let back = IDkgComplaintInternal::deserialize(&bytes).unwrap();
    assert_eq!(back, complaint);
}

#[test]
fn round_trip_on_other_curve() {
    let complaint = IDkgComplaintInternal {
        proof: ProofOfDLogEquivalence {
            challenge: EccScalar::from_u64(EccCurveType::P256, 7),
            response: EccScalar::from_u64(EccCurveType::P256, 0),
        },
        shared_secret: EccPoint::from_u64(EccCurveType::P256, 4294967278),
    };
    let bytes = complaint.serialize().unwrap();
    let back = IDkgComplaintInternal::deserialize(&bytes).unwrap();
    assert_eq!(back, complaint);
}

#[test]
fn truncated_bytes_are_a_serialization_error() {
    let bytes = sample_complaint().serialize().unwrap();
    for len in 0..bytes.len() {
        let r = IDkgComplaintInternal::deserialize(&bytes[..len]);
        assert_eq!(r, Err(ThresholdEcdsaError::SerializationError));
    }
}

#[test]
fn extended_bytes_are_a_serialization_error() {
    let mut bytes = sample_complaint().serialize().unwrap();
    bytes.push(0);
    let r = IDkgComplaintInternal::deserialize(&bytes);
    assert_eq!(r, Err(ThresholdEcdsaError::SerializationError));
}

#[test]
fn unknown_format_byte_is_a_serialization_error() {
    let mut bytes = sample_complaint().serialize().unwrap();
    bytes[0] = 9;
    let r = IDkgComplaintInternal::deserialize(&bytes);
    assert_eq!(r, Err(ThresholdEcdsaError::SerializationError));
}

#[test]
fn unknown_curve_tag_is_a_serialization_error() {
    let mut bytes = sample_complaint().serialize().unwrap();
    bytes[1] = 77;
    let r = IDkgComplaintInternal::deserialize(&bytes);
    assert_eq!(r, Err(ThresholdEcdsaError::SerializationError));
}

#[test]
fn unreduced_residue_is_a_serialization_error() {
    let mut bytes = sample_complaint().serialize().unwrap();
    for i in 2..10 {
        bytes[i] = 0xFF;
    }
    let r = IDkgComplaintInternal::deserialize(&bytes);
    assert_eq!(r, Err(ThresholdEcdsaError::SerializationError));
}

#[test]
fn mixed_proof_curves_are_a_serialization_error() {
    let mut bytes = sample_complaint().serialize().unwrap();
    // Relabel only the response scalar as the other curve; its small
    // residue stays reduced, so only the curve consistency check can
    // reject it.
    bytes[10] = 2;
    for i in 11..19 {
        bytes[i] = 0;
    }
    let r = IDkgComplaintInternal::deserialize(&bytes);
    assert_eq!(r, Err(ThresholdEcdsaError::SerializationError));
}

#[test]
fn try_from_wire_record_validates() {
    let complaint = sample_complaint();
    let wire = IDkgComplaint {
        internal_complaint_raw: complaint.serialize().unwrap(),
    };
    let back = IDkgComplaintInternal::try_from(&wire).unwrap();
    assert_eq!(back, complaint);
    let garbage = IDkgComplaint {
        internal_complaint_raw: vec![1, 2, 3],
    };
    assert_eq!(
        IDkgComplaintInternal::try_from(&garbage),
        Err(ThresholdEcdsaError::SerializationError)
    );
}
