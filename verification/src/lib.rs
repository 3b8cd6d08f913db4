//! Complaint sub-protocol of a threshold-ECDSA distributed key generation
//! scheme: a receiver that cannot open a dealer's encrypted share proves,
//! without revealing its own secret key, that the dealer's published
//! commitment is inconsistent with the share that was actually delivered.

use vstd::prelude::*;

pub mod group;
pub mod hashing;
pub mod ro;
pub mod seed;
pub mod zk;
pub mod commitment;
pub mod mega;
pub mod complaints;

verus! {

/// Stable ordinal identifying a participant (dealer or receiver) in a round.
pub type NodeIndex = u32;

/// The error kinds that this library's operations can report.
#[derive(Clone, Copy, Debug, PartialEq, Eq, Structural)]
pub enum ThresholdEcdsaError {
    /// An operation combined values tagged with different curves.
    CurveMismatchError,
    /// A caller precondition was violated (e.g. no failing dealing).
    InvalidArguments,
    /// A commitment opening did not match the commitment it was checked against.
    InvalidCommitment,
    /// A complaint's proof verified, but the decrypted opening satisfies the
    /// dealing commitment: the complaint itself is false.
    InvalidComplaint,
    /// A zero-knowledge proof failed verification.
    InvalidProof,
    /// A ciphertext addressed fewer recipients than the requested index.
    InvalidRecipients,
    /// Malformed bytes were handed to a deserializer.
    SerializationError,
    /// The ciphertext variant and the commitment variant do not belong together.
    UnexpectedCommitmentType,
}

pub type ThresholdEcdsaResult<T> = Result<T, ThresholdEcdsaError>;

} // verus!
