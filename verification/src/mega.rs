//! The hybrid-encryption scheme delivering shares, at the interface the
//! complaint protocol consumes: an ephemeral key, per-recipient masked
//! scalars, decryption from a secret key or from an already-proven shared
//! secret, and the decrypt-and-check operation a receiver runs over each
//! dealing.
//!
//! A recipient's mask is the transcript digest of the associated data, the
//! dealer and recipient indices, the recipient public key, and the
//! Diffie-Hellman shared point, reduced to a scalar; encryption adds the
//! mask, decryption subtracts it.

use vstd::prelude::*;

use crate::NodeIndex;
use crate::ThresholdEcdsaError;
use crate::ThresholdEcdsaResult;
use crate::commitment::CommitmentOpening;
use crate::commitment::PolynomialCommitment;
use crate::group::EccCurveType;
use crate::group::EccPoint;
use crate::group::EccScalar;
use crate::hashing::sha256_of;
use crate::hashing::spec_scalar_from_digest;
use crate::ro::RandomOracle;
use crate::ro::enc_bytestring;
use crate::ro::enc_point;
use crate::ro::enc_u32;

verus! {

/// Domain label of the mask transcript.
pub const DOMAIN_MEGA_MASK: u8 = 48;

/// Field names of the mask transcript.
pub const NAME_ASSOC_DATA: u8 = 1;

pub const NAME_DEALER_INDEX: u8 = 2;

pub const NAME_RECIPIENT_INDEX: u8 = 3;

pub const NAME_RECIPIENT_KEY: u8 = 4;

pub const NAME_SHARED_SECRET: u8 = 5;

pub const NAME_SLOT: u8 = 6;

/// A receiver's decryption key.
#[derive(Clone, Copy, Debug, PartialEq, Eq, Structural)]
pub struct MEGaPrivateKey {
    pub secret: EccScalar,
}

/// A receiver's public key: the secret scalar times the generator.
#[derive(Clone, Copy, Debug, PartialEq, Eq, Structural)]
pub struct MEGaPublicKey {
    pub point: EccPoint,
}

impl MEGaPrivateKey {
    pub open spec fn wf(self) -> bool {
        self.secret.wf()
    }

    pub open spec fn spec_curve_type(self) -> EccCurveType {
        self.secret.spec_curve_type()
    }

    pub fn from_scalar(secret: EccScalar) -> (r: MEGaPrivateKey)
        ensures
            r == (MEGaPrivateKey { secret }),
    {
        MEGaPrivateKey { secret }
    }

    pub fn secret_scalar(&self) -> (r: &EccScalar)
        ensures
            r == &self.secret,
    {
        &self.secret
    }

    /// The matching public key: `secret·G`.
    pub fn public_key(&self) -> (r: MEGaPublicKey)
        requires
            self.wf(),
        ensures
            r == self.spec_public_key(),
            r.wf(),
            r.spec_curve_type() == self.spec_curve_type(),
    {
        let curve = self.secret.curve_type();
        MEGaPublicKey { point: EccPoint::generator_g(curve).scalar_mul(&self.secret).unwrap() }
    }

    pub open spec fn spec_public_key(self) -> MEGaPublicKey {
        MEGaPublicKey {
            point: EccPoint::spec_generator_g(self.secret.spec_curve_type()).spec_scalar_mul(
                self.secret,
            ),
        }
    }
}

impl MEGaPublicKey {
    pub open spec fn wf(self) -> bool {
        self.point.wf()
    }

    pub open spec fn spec_curve_type(self) -> EccCurveType {
        self.point.spec_curve_type()
    }

    pub fn new(point: EccPoint) -> (r: MEGaPublicKey)
        ensures
            r == (MEGaPublicKey { point }),
    {
        MEGaPublicKey { point }
    }

    pub fn public_point(&self) -> (r: &EccPoint)
        ensures
            r == &self.point,
    {
        &self.point
    }
}

/// The mask scalar hiding one slot of one recipient's share.
pub open spec fn spec_mega_mask(
    assoc_data: Seq<u8>,
    dealer_index: NodeIndex,
    recipient_index: NodeIndex,
    recipient_key: EccPoint,
    shared_secret: EccPoint,
    slot: u32,
) -> EccScalar {
    spec_scalar_from_digest(
        sha256_of(
            seq![DOMAIN_MEGA_MASK] + enc_bytestring(NAME_ASSOC_DATA, assoc_data) + enc_u32(
                NAME_DEALER_INDEX,
                dealer_index,
            ) + enc_u32(NAME_RECIPIENT_INDEX, recipient_index) + enc_point(
                NAME_RECIPIENT_KEY,
                recipient_key,
            ) + enc_point(NAME_SHARED_SECRET, shared_secret) + enc_u32(NAME_SLOT, slot),
        ),
        shared_secret.spec_curve_type(),
    )
}

/// Derive the mask scalar of one slot of one recipient's share.
pub fn mega_mask(
    assoc_data: &[u8],
    dealer_index: NodeIndex,
    recipient_index: NodeIndex,
    recipient_key: &EccPoint,
    shared_secret: &EccPoint,
    slot: u32,
) -> (r: EccScalar)
    ensures
        r == spec_mega_mask(
            assoc_data@,
            dealer_index,
            recipient_index,
            *recipient_key,
            *shared_secret,
            slot,
        ),
        r.wf(),
        r.spec_curve_type() == shared_secret.spec_curve_type(),
{
    let ro = RandomOracle::new(DOMAIN_MEGA_MASK).add_bytestring(NAME_ASSOC_DATA, assoc_data)
        .add_u32(NAME_DEALER_INDEX, dealer_index).add_u32(NAME_RECIPIENT_INDEX, recipient_index)
        .add_point(NAME_RECIPIENT_KEY, recipient_key).add_point(NAME_SHARED_SECRET, shared_secret)
        .add_u32(NAME_SLOT, slot);
    proof {
        assert(ro.input@ =~= seq![DOMAIN_MEGA_MASK] + enc_bytestring(NAME_ASSOC_DATA, assoc_data@)
            + enc_u32(NAME_DEALER_INDEX, dealer_index) + enc_u32(
            NAME_RECIPIENT_INDEX,
            recipient_index,
        ) + enc_point(NAME_RECIPIENT_KEY, *recipient_key) + enc_point(
            NAME_SHARED_SECRET,
            *shared_secret,
        ) + enc_u32(NAME_SLOT, slot));
    }
    ro.output_scalar(shared_secret.curve_type())
}

/// Encrypted shares of a `Simple` commitment: one scalar per recipient.
#[derive(Clone, Debug)]
pub struct MEGaCiphertextSingle {
    pub ephemeral_key: EccPoint,
    pub ctexts: Vec<EccScalar>,
}

/// Encrypted shares of a `Pedersen` commitment: a value/mask scalar pair
/// per recipient.
#[derive(Clone, Debug)]
pub struct MEGaCiphertextPair {
    pub ephemeral_key: EccPoint,
    pub ctexts: Vec<(EccScalar, EccScalar)>,
}

/// The encrypted shares of one dealing; the variant is fixed at dealing
/// creation.
#[derive(Clone, Debug)]
pub enum MEGaCiphertext {
    Single(MEGaCiphertextSingle),
    Pairs(MEGaCiphertextPair),
}

impl MEGaCiphertextSingle {
    pub open spec fn wf(self) -> bool {
        &&& self.ephemeral_key.wf()
        &&& forall|i: int|
            0 <= i < self.ctexts@.len() ==> (#[trigger] self.ctexts@[i]).wf()
                && self.ctexts@[i].spec_curve_type() == self.ephemeral_key.spec_curve_type()
    }

    /// What decryption from a shared secret returns: the recipient's
    /// ciphertext minus the recipient's mask, or a typed error on a curve
    /// mismatch or an out-of-range recipient index.
    pub open spec fn spec_decrypt_from_shared_secret(
        self,
        assoc_data: Seq<u8>,
        dealer_index: NodeIndex,
        recipient_index: NodeIndex,
        recipient_public_key: MEGaPublicKey,
        shared_secret: EccPoint,
    ) -> ThresholdEcdsaResult<EccScalar> {
        let curve = self.ephemeral_key.spec_curve_type();
        if !(shared_secret.spec_curve_type() == curve && recipient_public_key.spec_curve_type()
            == curve) {
            Err(ThresholdEcdsaError::CurveMismatchError)
        } else if recipient_index >= self.ctexts@.len() {
            Err(ThresholdEcdsaError::InvalidRecipients)
        } else {
            Ok(
                self.ctexts@[recipient_index as int].spec_sub(
                    spec_mega_mask(
                        assoc_data,
                        dealer_index,
                        recipient_index,
                        recipient_public_key.point,
                        shared_secret,
                        0,
                    ),
                ),
            )
        }
    }

    /// Decrypt this ciphertext's share for one recipient, given the
    /// Diffie-Hellman shared secret of that recipient and the dealing's
    /// ephemeral key.
    pub fn decrypt_from_shared_secret(
        &self,
        assoc_data: &[u8],
        dealer_index: NodeIndex,
        recipient_index: NodeIndex,
        recipient_public_key: &MEGaPublicKey,
        shared_secret: &EccPoint,
    ) -> (r: ThresholdEcdsaResult<EccScalar>)
        requires
            self.wf(),
            recipient_public_key.wf(),
            shared_secret.wf(),
        ensures
            r == self.spec_decrypt_from_shared_secret(
                assoc_data@,
                dealer_index,
                recipient_index,
                *recipient_public_key,
                *shared_secret,
            ),
            r matches Ok(s) ==> s.wf() && s.spec_curve_type()
                == self.ephemeral_key.spec_curve_type(),
    {
        let curve = self.ephemeral_key.curve_type();
        if !(shared_secret.curve_type() == curve && recipient_public_key.point.curve_type()
            == curve) {
            return Err(ThresholdEcdsaError::CurveMismatchError);
        }
        if recipient_index as usize >= self.ctexts.len() {
            return Err(ThresholdEcdsaError::InvalidRecipients);
        }
        let mask = mega_mask(
            assoc_data,
            dealer_index,
            recipient_index,
            recipient_public_key.public_point(),
            shared_secret,
            0,
        );
        let ctext = self.ctexts[recipient_index as usize];
        Ok(ctext.sub(&mask).unwrap())
    }
}

impl MEGaCiphertextPair {
    pub open spec fn wf(self) -> bool {
        &&& self.ephemeral_key.wf()
        &&& forall|i: int|
            0 <= i < self.ctexts@.len() ==> (#[trigger] self.ctexts@[i]).0.wf()
                && self.ctexts@[i].1.wf() && self.ctexts@[i].0.spec_curve_type()
                == self.ephemeral_key.spec_curve_type() && self.ctexts@[i].1.spec_curve_type()
                == self.ephemeral_key.spec_curve_type()
    }

    /// As for the `Single` variant, with one mask per slot of the pair.
    pub open spec fn spec_decrypt_from_shared_secret(
        self,
        assoc_data: Seq<u8>,
        dealer_index: NodeIndex,
        recipient_index: NodeIndex,
        recipient_public_key: MEGaPublicKey,
        shared_secret: EccPoint,
    ) -> ThresholdEcdsaResult<(EccScalar, EccScalar)> {
        let curve = self.ephemeral_key.spec_curve_type();
        if !(shared_secret.spec_curve_type() == curve && recipient_public_key.spec_curve_type()
            == curve) {
            Err(ThresholdEcdsaError::CurveMismatchError)
        } else if recipient_index >= self.ctexts@.len() {
            Err(ThresholdEcdsaError::InvalidRecipients)
        } else {
            let mask0 = spec_mega_mask(
                assoc_data,
                dealer_index,
                recipient_index,
                recipient_public_key.point,
                shared_secret,
                0,
            );
            let mask1 = spec_mega_mask(
                assoc_data,
                dealer_index,
                recipient_index,
                recipient_public_key.point,
                shared_secret,
                1,
            );
            Ok(
                (
                    self.ctexts@[recipient_index as int].0.spec_sub(mask0),
                    self.ctexts@[recipient_index as int].1.spec_sub(mask1),
                ),
            )
        }
    }

    /// Decrypt this ciphertext's share pair for one recipient.
    pub fn decrypt_from_shared_secret(
        &self,
        assoc_data: &[u8],
        dealer_index: NodeIndex,
        recipient_index: NodeIndex,
        recipient_public_key: &MEGaPublicKey,
        shared_secret: &EccPoint,
    ) -> (r: ThresholdEcdsaResult<(EccScalar, EccScalar)>)
        requires
            self.wf(),
            recipient_public_key.wf(),
            shared_secret.wf(),
        ensures
            r == self.spec_decrypt_from_shared_secret(
                assoc_data@,
                dealer_index,
                recipient_index,
                *recipient_public_key,
                *shared_secret,
            ),
            r matches Ok(s) ==> s.0.wf() && s.1.wf() && s.0.spec_curve_type()
                == self.ephemeral_key.spec_curve_type() && s.1.spec_curve_type()
                == self.ephemeral_key.spec_curve_type(),
    {
        let curve = self.ephemeral_key.curve_type();
        if !(shared_secret.curve_type() == curve && recipient_public_key.point.curve_type()
            == curve) {
            return Err(ThresholdEcdsaError::CurveMismatchError);
        }
        if recipient_index as usize >= self.ctexts.len() {
            return Err(ThresholdEcdsaError::InvalidRecipients);
        }
        let mask0 = mega_mask(
            assoc_data,
            dealer_index,
            recipient_index,
            recipient_public_key.public_point(),
            shared_secret,
            0,
        );
        let mask1 = mega_mask(
            assoc_data,
            dealer_index,
            recipient_index,
            recipient_public_key.public_point(),
            shared_secret,
            1,
        );
        let ctext = self.ctexts[recipient_index as usize];
        Ok((ctext.0.sub(&mask0).unwrap(), ctext.1.sub(&mask1).unwrap()))
    }
}

impl MEGaCiphertext {
    pub open spec fn wf(self) -> bool {
        match self {
            MEGaCiphertext::Single(c) => c.wf(),
            MEGaCiphertext::Pairs(c) => c.wf(),
        }
    }

    pub open spec fn spec_ephemeral_key(self) -> EccPoint {
        match self {
            MEGaCiphertext::Single(c) => c.ephemeral_key,
            MEGaCiphertext::Pairs(c) => c.ephemeral_key,
        }
    }

    /// The dealing's ephemeral key point.
    pub fn ephemeral_key(&self) -> (r: &EccPoint)
        ensures
            r == &self.spec_ephemeral_key(),
    {
        match self {
            MEGaCiphertext::Single(c) => &c.ephemeral_key,
            MEGaCiphertext::Pairs(c) => &c.ephemeral_key,
        }
    }

    /// What decrypt-and-check returns: the opening decrypted with the
    /// receiver's own key if it exists and satisfies the commitment, and a
    /// typed error otherwise.
    pub open spec fn spec_decrypt_and_check(
        self,
        commitment: PolynomialCommitment,
        assoc_data: Seq<u8>,
        dealer_index: NodeIndex,
        recipient_index: NodeIndex,
        secret_key: MEGaPrivateKey,
        public_key: MEGaPublicKey,
    ) -> ThresholdEcdsaResult<CommitmentOpening> {
        if secret_key.spec_curve_type() != self.spec_ephemeral_key().spec_curve_type() {
            Err(ThresholdEcdsaError::CurveMismatchError)
        } else {
            let shared_secret = self.spec_ephemeral_key().spec_scalar_mul(secret_key.secret);
            match (self, commitment) {
                (MEGaCiphertext::Single(c), PolynomialCommitment::Simple(_)) => match c
                    .spec_decrypt_from_shared_secret(
                    assoc_data,
                    dealer_index,
                    recipient_index,
                    public_key,
                    shared_secret,
                ) {
                    Err(e) => Err(e),
                    Ok(s) => {
                        let opening = CommitmentOpening::Simple(s);
                        match commitment.spec_check_opening(recipient_index, opening) {
                            Err(e) => Err(e),
                            Ok(true) => Ok(opening),
                            Ok(false) => Err(ThresholdEcdsaError::InvalidCommitment),
                        }
                    },
                },
                (MEGaCiphertext::Pairs(c), PolynomialCommitment::Pedersen(_)) => match c
                    .spec_decrypt_from_shared_secret(
                    assoc_data,
                    dealer_index,
                    recipient_index,
                    public_key,
                    shared_secret,
                ) {
                    Err(e) => Err(e),
                    Ok(s) => {
                        let opening = CommitmentOpening::Pedersen(s.0, s.1);
                        match commitment.spec_check_opening(recipient_index, opening) {
                            Err(e) => Err(e),
                            Ok(true) => Ok(opening),
                            Ok(false) => Err(ThresholdEcdsaError::InvalidCommitment),
                        }
                    },
                },
                _ => Err(ThresholdEcdsaError::UnexpectedCommitmentType),
            }
        }
    }

    /// Decrypt this dealing's share with the receiver's own key pair and
    /// check the result against the dealing commitment.
    pub fn decrypt_and_check(
        &self,
        commitment: &PolynomialCommitment,
        assoc_data: &[u8],
        dealer_index: NodeIndex,
        recipient_index: NodeIndex,
        secret_key: &MEGaPrivateKey,
        public_key: &MEGaPublicKey,
    ) -> (r: ThresholdEcdsaResult<CommitmentOpening>)
        requires
            self.wf(),
            commitment.wf(),
            secret_key.wf(),
            public_key.wf(),
        ensures
            r == self.spec_decrypt_and_check(
                *commitment,
                assoc_data@,
                dealer_index,
                recipient_index,
                *secret_key,
                *public_key,
            ),
            r matches Ok(opening) ==> opening.wf(),
    {
        if secret_key.secret.curve_type() != self.ephemeral_key().curve_type() {
            return Err(ThresholdEcdsaError::CurveMismatchError);
        }
        let shared_secret = self.ephemeral_key().scalar_mul(secret_key.secret_scalar()).unwrap();
        match (self, commitment) {
            (MEGaCiphertext::Single(c), PolynomialCommitment::Simple(_)) => {
                let s = c.decrypt_from_shared_secret(
                    assoc_data,
                    dealer_index,
                    recipient_index,
                    public_key,
                    &shared_secret,
                )?;
                let opening = CommitmentOpening::Simple(s);
                if commitment.check_opening(recipient_index, &opening)? {
                    Ok(opening)
                } else {
                    Err(ThresholdEcdsaError::InvalidCommitment)
                }
            },
            (MEGaCiphertext::Pairs(c), PolynomialCommitment::Pedersen(_)) => {
                let s = c.decrypt_from_shared_secret(
                    assoc_data,
                    dealer_index,
                    recipient_index,
                    public_key,
                    &shared_secret,
                )?;
                let opening = CommitmentOpening::Pedersen(s.0, s.1);
                if commitment.check_opening(recipient_index, &opening)? {
                    Ok(opening)
                } else {
                    Err(ThresholdEcdsaError::InvalidCommitment)
                }
            },
            _ => Err(ThresholdEcdsaError::UnexpectedCommitmentType),
        }
    }
}

} // verus!
