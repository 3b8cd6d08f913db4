//! The complaint protocol: generation, verification, and the wire codec of
//! complaints.
//!
//! A receiver that cannot open a dealing publishes a complaint holding the
//! Diffie-Hellman shared secret it used and a zero-knowledge proof that
//! this shared secret really is the one its registered public key
//! determines.  Any third party verifies the proof first and only then
//! uses the now-trusted shared secret to re-derive the opening and check
//! it against the dealing commitment: a complaint is valid exactly when
//! the proof holds and the opening does not satisfy the commitment.

use vstd::prelude::*;

use crate::NodeIndex;
use crate::ThresholdEcdsaError;
use crate::ThresholdEcdsaResult;
use crate::commitment::CommitmentOpening;
use crate::commitment::PolynomialCommitment;
use crate::group::EccPoint;
use crate::group::EccScalar;
use crate::group::spec_curve_from_tag;
use crate::group::spec_curve_order;
use crate::group::spec_curve_tag;
use crate::group::curve_from_tag;
use crate::group::curve_tag;
use crate::hashing::lemma_be64_round_trip;
use crate::hashing::push_be64;
use crate::hashing::sha256_of;
use crate::hashing::spec_be32;
use crate::hashing::spec_be64;
use crate::hashing::spec_u64_from_be;
use crate::hashing::push_be32;
use crate::mega::MEGaCiphertext;
use crate::mega::MEGaPrivateKey;
use crate::mega::MEGaPublicKey;
use crate::ro::RandomOracle;
use crate::ro::enc_bytestring;
use crate::ro::enc_point;
use crate::ro::enc_u32;
use crate::seed::Seed;
use crate::seed::spec_derive;
use crate::zk::ProofOfDLogEquivalence;
use crate::zk::spec_statement_curves_ok;
use crate::zk::spec_verify_ok;

verus! {

/// Domain label of the complaint-proof transcript.
pub const DOMAIN_COMPLAINT_PROOF_ASSOC: u8 = 64;

/// Field names of the complaint-proof transcript.
pub const NAME_ASSOC_DATA: u8 = 1;

pub const NAME_RECEIVER_INDEX: u8 = 2;

pub const NAME_DEALER_INDEX: u8 = 3;

pub const NAME_RECEIVER_KEY: u8 = 4;

/// First byte of the label under which the per-dealer complaint seed is
/// derived.
pub const COMPLAINT_LABEL_PREFIX: u8 = 80;

/// Leading byte of the complaint wire encoding.
pub const COMPLAINT_FORMAT: u8 = 1;

/// Byte length of the complaint wire encoding.
pub const COMPLAINT_BYTES: usize = 28;

/// One dealer's published contribution: encrypted shares plus the
/// polynomial commitment they must open to.
#[derive(Clone, Debug)]
pub struct IDkgDealingInternal {
    pub ciphertext: MEGaCiphertext,
    pub commitment: PolynomialCommitment,
}

impl IDkgDealingInternal {
    pub open spec fn wf(self) -> bool {
        &&& self.ciphertext.wf()
        &&& self.commitment.wf()
    }
}

/// Evidence that a dealing is inconsistent: the complainer's Diffie-Hellman
/// shared secret, meaningful only once the enclosed proof verifies.
#[derive(Clone, Copy, Debug, PartialEq, Eq, Structural)]
pub struct IDkgComplaintInternal {
    pub proof: ProofOfDLogEquivalence,
    pub shared_secret: EccPoint,
}

/// An opaque wire record carrying a serialized complaint inside a signed
/// protocol message.
#[derive(Clone, Debug)]
pub struct IDkgComplaint {
    pub internal_complaint_raw: Vec<u8>,
}

/// The digest binding a complaint proof to its context: associated data,
/// receiver (complainer) index, dealer index, and the receiver public key,
/// in that order.
pub open spec fn spec_proof_assoc_data(
    associated_data: Seq<u8>,
    receiver_index: NodeIndex,
    dealer_index: NodeIndex,
    public_key: MEGaPublicKey,
) -> Seq<u8> {
    sha256_of(
        seq![DOMAIN_COMPLAINT_PROOF_ASSOC] + enc_bytestring(NAME_ASSOC_DATA, associated_data)
            + enc_u32(NAME_RECEIVER_INDEX, receiver_index) + enc_u32(NAME_DEALER_INDEX, dealer_index)
            + enc_point(NAME_RECEIVER_KEY, public_key.point),
    )
}

/// The label under which the complaint seed against one dealer is derived.
pub open spec fn spec_complaint_label(dealer_index: NodeIndex) -> Seq<u8> {
    seq![COMPLAINT_LABEL_PREFIX] + spec_be32(dealer_index)
}

/// The seed state used for the complaint against one dealer.
pub open spec fn spec_complaint_seed_state(seed_state: Seq<u8>, dealer_index: NodeIndex) -> Seq<
    u8,
> {
    spec_derive(seed_state, spec_complaint_label(dealer_index))
}

/// What complaint creation returns: the shared secret and proof on
/// curve-consistent inputs, a typed error when the dealing's ephemeral key
/// and the receiver's secret key live on different curves.
#[verifier::opaque]
pub open spec fn spec_new_complaint(
    seed_state: Seq<u8>,
    dealing: IDkgDealingInternal,
    dealer_index: NodeIndex,
    receiver_index: NodeIndex,
    secret_key: MEGaPrivateKey,
    public_key: MEGaPublicKey,
    associated_data: Seq<u8>,
) -> ThresholdEcdsaResult<IDkgComplaintInternal> {
    let eph = dealing.ciphertext.spec_ephemeral_key();
    if eph.spec_curve_type() != secret_key.spec_curve_type() {
        Err(ThresholdEcdsaError::CurveMismatchError)
    } else {
        let curve = secret_key.spec_curve_type();
        let shared_secret = eph.spec_scalar_mul(secret_key.secret);
        let assoc = spec_proof_assoc_data(associated_data, receiver_index, dealer_index, public_key);
        let proof = crate::zk::spec_create(
            seed_state,
            secret_key.secret,
            EccPoint::spec_generator_g(curve),
            eph,
            assoc,
        );
        Ok(IDkgComplaintInternal { proof, shared_secret })
    }
}

/// What complaint verification returns, in the mandatory order: first the
/// proof is checked against the rebuilt context digest, and only a complaint
/// whose proof holds has its shared secret used to decrypt; then matching
/// variant pairs decrypt and check the opening, mismatched pairs are
/// rejected without decryption; an opening that satisfies the commitment
/// refutes the complaint.
#[verifier::opaque]
pub open spec fn spec_verify_complaint(
    complaint: IDkgComplaintInternal,
    dealing: IDkgDealingInternal,
    dealer_index: NodeIndex,
    complainer_index: NodeIndex,
    complainer_key: MEGaPublicKey,
    associated_data: Seq<u8>,
) -> ThresholdEcdsaResult<()> {
    let curve = complaint.shared_secret.spec_curve_type();
    let base1 = EccPoint::spec_generator_g(curve);
    let base2 = dealing.ciphertext.spec_ephemeral_key();
    let assoc = spec_proof_assoc_data(
        associated_data,
        complainer_index,
        dealer_index,
        complainer_key,
    );
    if !spec_statement_curves_ok(
        complaint.proof,
        base1,
        base2,
        complainer_key.point,
        complaint.shared_secret,
    ) {
        Err(ThresholdEcdsaError::CurveMismatchError)
    } else if !spec_verify_ok(
        complaint.proof,
        base1,
        base2,
        complainer_key.point,
        complaint.shared_secret,
        assoc,
    ) {
        Err(ThresholdEcdsaError::InvalidProof)
    } else {
        match (dealing.ciphertext, dealing.commitment) {
            (MEGaCiphertext::Single(c), PolynomialCommitment::Simple(_)) => match c
                .spec_decrypt_from_shared_secret(
                associated_data,
                dealer_index,
                complainer_index,
                complainer_key,
                complaint.shared_secret,
            ) {
                Err(e) => Err(e),
                Ok(s) => match dealing.commitment.spec_check_opening(
                    complainer_index,
                    CommitmentOpening::Simple(s),
                ) {
                    Err(e) => Err(e),
                    Ok(true) => Err(ThresholdEcdsaError::InvalidComplaint),
                    Ok(false) => Ok(()),
                },
            },
            (MEGaCiphertext::Pairs(c), PolynomialCommitment::Pedersen(_)) => match c
                .spec_decrypt_from_shared_secret(
                associated_data,
                dealer_index,
                complainer_index,
                complainer_key,
                complaint.shared_secret,
            ) {
                Err(e) => Err(e),
                Ok(s) => match dealing.commitment.spec_check_opening(
                    complainer_index,
                    CommitmentOpening::Pedersen(s.0, s.1),
                ) {
                    Err(e) => Err(e),
                    Ok(true) => Err(ThresholdEcdsaError::InvalidComplaint),
                    Ok(false) => Ok(()),
                },
            },
            _ => Err(ThresholdEcdsaError::UnexpectedCommitmentType),
        }
    }
}

/// Whether a dealing opens successfully for this receiver: decryption with
/// the receiver's own key yields an opening that satisfies the commitment.
#[verifier::opaque]
pub open spec fn spec_opens_ok(
    dealing: IDkgDealingInternal,
    associated_data: Seq<u8>,
    dealer_index: NodeIndex,
    receiver_index: NodeIndex,
    secret_key: MEGaPrivateKey,
    public_key: MEGaPublicKey,
) -> bool {
    dealing.ciphertext.spec_decrypt_and_check(
        dealing.commitment,
        associated_data,
        dealer_index,
        receiver_index,
        secret_key,
        public_key,
    ) is Ok
}

impl IDkgComplaintInternal {
    pub open spec fn wf(self) -> bool {
        &&& self.proof.wf()
        &&& self.shared_secret.wf()
    }

    /// Create a new complaint against a dealing.
    ///
    /// This should only be done when the commitment opening contained in
    /// the dealing's ciphertext does not decrypt to a match for the dealing
    /// commitment.
    pub fn new(
        seed: &Seed,
        dealing: &IDkgDealingInternal,
        dealer_index: NodeIndex,
        receiver_index: NodeIndex,
        secret_key: &MEGaPrivateKey,
        public_key: &MEGaPublicKey,
        associated_data: &[u8],
    ) -> (r: ThresholdEcdsaResult<Self>)
        requires
            dealing.wf(),
            secret_key.wf(),
            public_key.wf(),
        ensures
            r == spec_new_complaint(
                seed.state@,
                *dealing,
                dealer_index,
                receiver_index,
                *secret_key,
                *public_key,
                associated_data@,
            ),
            r matches Ok(c) ==> c.wf(),
    {
        proof {
            reveal(spec_new_complaint);
        }
        let eph = dealing.ciphertext.ephemeral_key();
        if eph.curve_type() != secret_key.secret_scalar().curve_type() {
            return Err(ThresholdEcdsaError::CurveMismatchError);
        }
        let curve = secret_key.secret_scalar().curve_type();
        let shared_secret = eph.scalar_mul(secret_key.secret_scalar()).unwrap();
        let proof_assoc_data = Self::create_proof_assoc_data(
            associated_data,
            receiver_index,
            dealer_index,
            public_key,
        );
        let generator = EccPoint::generator_g(curve);
        let proof = ProofOfDLogEquivalence::create(
            seed,
            secret_key.secret_scalar(),
            &generator,
            eph,
            proof_assoc_data.as_slice(),
        )?;
        Ok(Self { proof, shared_secret })
    }

    /// Verify a complaint.
    ///
    /// This checks that a complaint generated by a complainer with the given
    /// index and public key is in fact valid: the enclosed proof must show
    /// that the shared secret belongs to the complainer's key, and only then
    /// is the ciphertext decrypted with it and required to contradict the
    /// dealing commitment.  The proof check structurally precedes any use of
    /// the attacker-supplied shared secret.
    pub fn verify(
        &self,
        dealing: &IDkgDealingInternal,
        dealer_index: NodeIndex,
        complainer_index: NodeIndex,
        complainer_key: &MEGaPublicKey,
        associated_data: &[u8],
    ) -> (r: ThresholdEcdsaResult<()>)
        requires
            self.wf(),
            dealing.wf(),
            complainer_key.wf(),
        ensures
            r == spec_verify_complaint(
                *self,
                *dealing,
                dealer_index,
                complainer_index,
                *complainer_key,
                associated_data@,
            ),
    {
        proof {
            reveal(spec_verify_complaint);
        }
        let curve = self.shared_secret.curve_type();
        let proof_assoc_data = Self::create_proof_assoc_data(
            associated_data,
            complainer_index,
            dealer_index,
            complainer_key,
        );
        let generator = EccPoint::generator_g(curve);
        self.proof.verify(
            &generator,
            dealing.ciphertext.ephemeral_key(),
            complainer_key.public_point(),
            &self.shared_secret,
            proof_assoc_data.as_slice(),
        )?;
        let opening = match (&dealing.ciphertext, &dealing.commitment) {
            (MEGaCiphertext::Single(c), PolynomialCommitment::Simple(_)) => {
                let opening = c.decrypt_from_shared_secret(
                    associated_data,
                    dealer_index,
                    complainer_index,
                    complainer_key,
                    &self.shared_secret,
                )?;
                CommitmentOpening::Simple(opening)
            },
            (MEGaCiphertext::Pairs(c), PolynomialCommitment::Pedersen(_)) => {
                let opening = c.decrypt_from_shared_secret(
                    associated_data,
                    dealer_index,
                    complainer_index,
                    complainer_key,
                    &self.shared_secret,
                )?;
                CommitmentOpening::Pedersen(opening.0, opening.1)
            },
            _ => {
                return Err(ThresholdEcdsaError::UnexpectedCommitmentType);
            },
        };
        if dealing.commitment.check_opening(complainer_index, &opening)? {
            return Err(ThresholdEcdsaError::InvalidComplaint);
        }
        Ok(())
    }

    /// Build the context digest binding a complaint proof to its
    /// (associated data, receiver, dealer, receiver key) tuple.
    pub fn create_proof_assoc_data(
        associated_data: &[u8],
        receiver_index: NodeIndex,
        dealer_index: NodeIndex,
        public_key: &MEGaPublicKey,
    ) -> (r: Vec<u8>)
        ensures
            r@ == spec_proof_assoc_data(
                associated_data@,
                receiver_index,
                dealer_index,
                *public_key,
            ),
            r@.len() == 32,
    {
        let ro = RandomOracle::new(DOMAIN_COMPLAINT_PROOF_ASSOC).add_bytestring(
            NAME_ASSOC_DATA,
            associated_data,
        ).add_u32(NAME_RECEIVER_INDEX, receiver_index).add_u32(NAME_DEALER_INDEX, dealer_index)
            .add_point(NAME_RECEIVER_KEY, public_key.public_point());
        proof {
            assert(ro.input@ =~= seq![DOMAIN_COMPLAINT_PROOF_ASSOC] + enc_bytestring(
                NAME_ASSOC_DATA,
                associated_data@,
            ) + enc_u32(NAME_RECEIVER_INDEX, receiver_index) + enc_u32(
                NAME_DEALER_INDEX,
                dealer_index,
            ) + enc_point(NAME_RECEIVER_KEY, public_key.point));
        }
        ro.output_bytestring()
    }
}

/// Strictly ascending dealer indexes: the association list is an ordered
/// mapping.
pub open spec fn spec_indexes_sorted(ds: Seq<(NodeIndex, IDkgDealingInternal)>) -> bool {
    forall|i: int, j: int| 0 <= i < j < ds.len() ==> ds[i].0 < ds[j].0
}

pub open spec fn spec_dealings_wf(ds: Seq<(NodeIndex, IDkgDealingInternal)>) -> bool {
    forall|i: int| 0 <= i < ds.len() ==> (#[trigger] ds[i]).1.wf()
}

/// Whether the dealing's ephemeral key lives on the receiver key's curve,
/// so that a complaint against it can be created at all.
pub open spec fn spec_complaint_curve_ok(
    dealing: IDkgDealingInternal,
    secret_key: MEGaPrivateKey,
) -> bool {
    dealing.ciphertext.spec_ephemeral_key().spec_curve_type() == secret_key.spec_curve_type()
}

/// The complaints that `generate_complaints` produces, in input order: one
/// entry per dealing that fails to open, none for a dealing that opens.
pub open spec fn spec_generate_seq(
    ds: Seq<(NodeIndex, IDkgDealingInternal)>,
    associated_data: Seq<u8>,
    receiver_index: NodeIndex,
    secret_key: MEGaPrivateKey,
    public_key: MEGaPublicKey,
    seed_state: Seq<u8>,
) -> Seq<(NodeIndex, IDkgComplaintInternal)>
    decreases ds.len(),
{
    if ds.len() == 0 {
        Seq::empty()
    } else {
        let head = ds.first();
        let rest = spec_generate_seq(
            ds.drop_first(),
            associated_data,
            receiver_index,
            secret_key,
            public_key,
            seed_state,
        );
        if spec_opens_ok(
            head.1,
            associated_data,
            head.0,
            receiver_index,
            secret_key,
            public_key,
        ) {
            rest
        } else {
            match spec_new_complaint(
                spec_complaint_seed_state(seed_state, head.0),
                head.1,
                head.0,
                receiver_index,
                secret_key,
                public_key,
                associated_data,
            ) {
                Ok(c) => seq![(head.0, c)] + rest,
                Err(_) => rest,
            }
        }
    }
}

/// Whether the dealing at position `i` of the list fails to open for this
/// receiver.
pub open spec fn spec_fails_at(
    ds: Seq<(NodeIndex, IDkgDealingInternal)>,
    i: int,
    associated_data: Seq<u8>,
    receiver_index: NodeIndex,
    secret_key: MEGaPrivateKey,
    public_key: MEGaPublicKey,
) -> bool {
    !spec_opens_ok(ds[i].1, associated_data, ds[i].0, receiver_index, secret_key, public_key)
}

/// Whether every dealing of the list opens successfully for this receiver.
pub open spec fn spec_all_open(
    ds: Seq<(NodeIndex, IDkgDealingInternal)>,
    associated_data: Seq<u8>,
    receiver_index: NodeIndex,
    secret_key: MEGaPrivateKey,
    public_key: MEGaPublicKey,
) -> bool {
    forall|i: int|
        0 <= i < ds.len() ==> !spec_fails_at(
            ds,
            i,
            associated_data,
            receiver_index,
            secret_key,
            public_key,
        )
}

/// Whether an output entry is explained by the input list: it pairs the
/// index of some failing dealing with the complaint created against that
/// dealing under the dealer's label-keyed seed.
pub open spec fn spec_entry_explained(
    ds: Seq<(NodeIndex, IDkgDealingInternal)>,
    entry: (NodeIndex, IDkgComplaintInternal),
    associated_data: Seq<u8>,
    receiver_index: NodeIndex,
    secret_key: MEGaPrivateKey,
    public_key: MEGaPublicKey,
    seed_state: Seq<u8>,
) -> bool {
    exists|i: int|
        0 <= i < ds.len() && (#[trigger] ds[i]).0 == entry.0 && spec_fails_at(
            ds,
            i,
            associated_data,
            receiver_index,
            secret_key,
            public_key,
        ) && spec_new_complaint(
            spec_complaint_seed_state(seed_state, ds[i].0),
            ds[i].1,
            ds[i].0,
            receiver_index,
            secret_key,
            public_key,
            associated_data,
        ) == Ok::<IDkgComplaintInternal, ThresholdEcdsaError>(entry.1)
}

/// The generated complaint list is empty exactly when every dealing opens.
pub proof fn lemma_generate_seq_empty(
    ds: Seq<(NodeIndex, IDkgDealingInternal)>,
    associated_data: Seq<u8>,
    receiver_index: NodeIndex,
    secret_key: MEGaPrivateKey,
    public_key: MEGaPublicKey,
    seed_state: Seq<u8>,
)
    requires
        forall|i: int|
            0 <= i < ds.len() && #[trigger] spec_fails_at(
                ds,
                i,
                associated_data,
                receiver_index,
                secret_key,
                public_key,
            ) ==> spec_new_complaint(
                spec_complaint_seed_state(seed_state, ds[i].0),
                ds[i].1,
                ds[i].0,
                receiver_index,
                secret_key,
                public_key,
                associated_data,
            ) is Ok,
    ensures
        spec_generate_seq(
            ds,
            associated_data,
            receiver_index,
            secret_key,
            public_key,
            seed_state,
        ).len() == 0 <==> spec_all_open(ds, associated_data, receiver_index, secret_key, public_key),
    decreases ds.len(),
{
    if ds.len() > 0 {
        assert forall|i: int| 0 <= i < ds.drop_first().len() implies ds.drop_first()[i] == ds[i
            + 1] by {}
        assert forall|i: int|
            0 <= i < ds.drop_first().len() && #[trigger] spec_fails_at(
                ds.drop_first(),
                i,
                associated_data,
                receiver_index,
                secret_key,
                public_key,
            ) implies spec_new_complaint(
            spec_complaint_seed_state(seed_state, ds.drop_first()[i].0),
            ds.drop_first()[i].1,
            ds.drop_first()[i].0,
            receiver_index,
            secret_key,
            public_key,
            associated_data,
        ) is Ok by {
            assert(spec_fails_at(ds, i + 1, associated_data, receiver_index, secret_key, public_key));
        }
        lemma_generate_seq_empty(
            ds.drop_first(),
            associated_data,
            receiver_index,
            secret_key,
            public_key,
            seed_state,
        );
        if spec_fails_at(ds, 0, associated_data, receiver_index, secret_key, public_key) {
            assert(spec_new_complaint(
                spec_complaint_seed_state(seed_state, ds[0].0),
                ds[0].1,
                ds[0].0,
                receiver_index,
                secret_key,
                public_key,
                associated_data,
            ) is Ok);
            assert(ds.first() == ds[0]);
        }
        if spec_generate_seq(
            ds,
            associated_data,
            receiver_index,
            secret_key,
            public_key,
            seed_state,
        ).len() == 0 {
            assert(!spec_fails_at(ds, 0, associated_data, receiver_index, secret_key, public_key));
            assert forall|i: int| 0 <= i < ds.len() implies !spec_fails_at(
                ds,
                i,
                associated_data,
                receiver_index,
                secret_key,
                public_key,
            ) by {
                if i > 0 {
                    assert(!spec_fails_at(
                        ds.drop_first(),
                        i - 1,
                        associated_data,
                        receiver_index,
                        secret_key,
                        public_key,
                    ));
                }
            }
        } else if spec_all_open(ds, associated_data, receiver_index, secret_key, public_key) {
            assert forall|i: int| 0 <= i < ds.drop_first().len() implies !spec_fails_at(
                ds.drop_first(),
                i,
                associated_data,
                receiver_index,
                secret_key,
                public_key,
            ) by {
                assert(!spec_fails_at(
                    ds,
                    i + 1,
                    associated_data,
                    receiver_index,
                    secret_key,
                    public_key,
                ));
            }
            assert(!spec_fails_at(ds, 0, associated_data, receiver_index, secret_key, public_key));
        }
    }
}

/// Every entry of the generated complaint list is explained by some
/// failing dealing of the input list.
pub proof fn lemma_generate_seq_members(
    ds: Seq<(NodeIndex, IDkgDealingInternal)>,
    associated_data: Seq<u8>,
    receiver_index: NodeIndex,
    secret_key: MEGaPrivateKey,
    public_key: MEGaPublicKey,
    seed_state: Seq<u8>,
)
    ensures
        ({
            let out = spec_generate_seq(
                ds,
                associated_data,
                receiver_index,
                secret_key,
                public_key,
                seed_state,
            );
            forall|j: int|
                0 <= j < out.len() ==> spec_entry_explained(
                    ds,
                    #[trigger] out[j],
                    associated_data,
                    receiver_index,
                    secret_key,
                    public_key,
                    seed_state,
                )
        }),
    decreases ds.len(),
{
    if ds.len() > 0 {
        lemma_generate_seq_members(
            ds.drop_first(),
            associated_data,
            receiver_index,
            secret_key,
            public_key,
            seed_state,
        );
        let out = spec_generate_seq(
            ds,
            associated_data,
            receiver_index,
            secret_key,
            public_key,
            seed_state,
        );
        let rest = spec_generate_seq(
            ds.drop_first(),
            associated_data,
            receiver_index,
            secret_key,
            public_key,
            seed_state,
        );
        assert forall|i: int| 0 <= i < ds.drop_first().len() implies ds.drop_first()[i] == ds[i
            + 1] by {}
        let head = ds.first();
        let opens = spec_opens_ok(
            head.1,
            associated_data,
            head.0,
            receiver_index,
            secret_key,
            public_key,
        );
        let created = spec_new_complaint(
            spec_complaint_seed_state(seed_state, head.0),
            head.1,
            head.0,
            receiver_index,
            secret_key,
            public_key,
            associated_data,
        );
        assert forall|j: int| 0 <= j < out.len() implies spec_entry_explained(
            ds,
            #[trigger] out[j],
            associated_data,
            receiver_index,
            secret_key,
            public_key,
            seed_state,
        ) by {
            if !opens && created is Ok && j == 0 {
                assert(spec_fails_at(
                    ds,
                    0,
                    associated_data,
                    receiver_index,
                    secret_key,
                    public_key,
                ));
            } else {
                let j_rest: int = if !opens && created is Ok {
                    j - 1
                } else {
                    j
                };
                assert(out[j] == rest[j_rest]);
                assert(spec_entry_explained(
                    ds.drop_first(),
                    rest[j_rest],
                    associated_data,
                    receiver_index,
                    secret_key,
                    public_key,
                    seed_state,
                ));
                let i_rest = choose|i: int|
                    0 <= i < ds.drop_first().len() && (#[trigger] ds.drop_first()[i]).0
                        == rest[j_rest].0 && spec_fails_at(
                        ds.drop_first(),
                        i,
                        associated_data,
                        receiver_index,
                        secret_key,
                        public_key,
                    ) && spec_new_complaint(
                        spec_complaint_seed_state(seed_state, ds.drop_first()[i].0),
                        ds.drop_first()[i].1,
                        ds.drop_first()[i].0,
                        receiver_index,
                        secret_key,
                        public_key,
                        associated_data,
                    ) == Ok::<IDkgComplaintInternal, ThresholdEcdsaError>(rest[j_rest].1);
                assert(ds[i_rest + 1] == ds.drop_first()[i_rest]);
                assert(spec_fails_at(
                    ds,
                    i_rest + 1,
                    associated_data,
                    receiver_index,
                    secret_key,
                    public_key,
                ));
            }
        }
    }
}

/// For each dealing, attempt to decrypt and check it against its
/// commitment; every dealing that fails yields a complaint under a fresh
/// seed derived with a per-dealer label.  Dealings that open successfully
/// are silently skipped.  If every dealing opens, the call fails with an
/// invalid-arguments error: the caller's precondition is that it already
/// knows at least one dealing is bad.  Output order follows the (ascending)
/// input order, and the result is a function of the inputs alone.
pub fn generate_complaints(
    verified_dealings: &Vec<(NodeIndex, IDkgDealingInternal)>,
    associated_data: &[u8],
    receiver_index: NodeIndex,
    secret_key: &MEGaPrivateKey,
    public_key: &MEGaPublicKey,
    seed: &Seed,
) -> (r: ThresholdEcdsaResult<Vec<(NodeIndex, IDkgComplaintInternal)>>)
    requires
        spec_indexes_sorted(verified_dealings@),
        spec_dealings_wf(verified_dealings@),
        secret_key.wf(),
        public_key.wf(),
    ensures
        spec_all_open(verified_dealings@, associated_data@, receiver_index, *secret_key, *public_key)
            ==> r == Err::<Vec<(NodeIndex, IDkgComplaintInternal)>, ThresholdEcdsaError>(
            ThresholdEcdsaError::InvalidArguments,
        ),
        (exists|i: int|
            0 <= i < verified_dealings@.len() && #[trigger] spec_fails_at(
                verified_dealings@,
                i,
                associated_data@,
                receiver_index,
                *secret_key,
                *public_key,
            ) && !spec_complaint_curve_ok(verified_dealings@[i].1, *secret_key)) ==> r == Err::<
            Vec<(NodeIndex, IDkgComplaintInternal)>,
            ThresholdEcdsaError,
        >(ThresholdEcdsaError::CurveMismatchError),
        (!spec_all_open(
            verified_dealings@,
            associated_data@,
            receiver_index,
            *secret_key,
            *public_key,
        ) && (forall|i: int|
            0 <= i < verified_dealings@.len() && #[trigger] spec_fails_at(
                verified_dealings@,
                i,
                associated_data@,
                receiver_index,
                *secret_key,
                *public_key,
            ) ==> spec_complaint_curve_ok(verified_dealings@[i].1, *secret_key))) ==> (r matches Ok(
            out,
        ) && out@ == spec_generate_seq(
            verified_dealings@,
            associated_data@,
            receiver_index,
            *secret_key,
            *public_key,
            seed.state@,
        )),
{
    let ghost full = verified_dealings@;
    let mut complaints: Vec<(NodeIndex, IDkgComplaintInternal)> = Vec::new();
    let n: usize = verified_dealings.len();
    let mut i: usize = 0;
    proof {
        assert(full.skip(0) =~= full);
    }
    while i < n
        invariant
            i <= n,
            n == full.len(),
            full == verified_dealings@,
            spec_indexes_sorted(full),
            spec_dealings_wf(full),
            secret_key.wf(),
            public_key.wf(),
            spec_generate_seq(
                full,
                associated_data@,
                receiver_index,
                *secret_key,
                *public_key,
                seed.state@,
            ) == complaints@ + spec_generate_seq(
                full.skip(i as int),
                associated_data@,
                receiver_index,
                *secret_key,
                *public_key,
                seed.state@,
            ),
            forall|k: int|
                0 <= k < i && #[trigger] spec_fails_at(
                    full,
                    k,
                    associated_data@,
                    receiver_index,
                    *secret_key,
                    *public_key,
                ) ==> spec_complaint_curve_ok(full[k].1, *secret_key),
        decreases n - i,
    {
        let (dealer_index, dealing) = &verified_dealings[i];
        let opening = dealing.ciphertext.decrypt_and_check(
            &dealing.commitment,
            associated_data,
            *dealer_index,
            receiver_index,
            secret_key,
            public_key,
        );
        proof {
            assert(full.skip(i as int).first() == full[i as int]);
            assert(full.skip(i as int).drop_first() =~= full.skip(i as int + 1));
        }
        if opening.is_err() {
            proof {
                reveal(spec_opens_ok);
                assert(!spec_opens_ok(
                    full[i as int].1,
                    associated_data@,
                    full[i as int].0,
                    receiver_index,
                    *secret_key,
                    *public_key,
                ));
                assert(spec_fails_at(
                    full,
                    i as int,
                    associated_data@,
                    receiver_index,
                    *secret_key,
                    *public_key,
                ));
            }
            let complaint_seed = derive_complaint_seed(seed, *dealer_index);
            let complaint = match IDkgComplaintInternal::new(
                &complaint_seed,
                dealing,
                *dealer_index,
                receiver_index,
                secret_key,
                public_key,
                associated_data,
            ) {
                Ok(c) => c,
                Err(e) => {
                    proof {
                        reveal(spec_new_complaint);
                        assert(!spec_complaint_curve_ok(full[i as int].1, *secret_key));
                        assert(e == ThresholdEcdsaError::CurveMismatchError);
                    }
                    return Err(e);
                },
            };
            proof {
                reveal(spec_new_complaint);
                assert(spec_complaint_curve_ok(full[i as int].1, *secret_key));
            }
            complaints.push((*dealer_index, complaint));
            proof {
                assert(complaints@ =~= complaints@.drop_last() + seq![
                    (full[i as int].0, complaint),
                ]);
                assert(complaints@.drop_last() + (seq![(full[i as int].0, complaint)]
                    + spec_generate_seq(
                    full.skip(i as int + 1),
                    associated_data@,
                    receiver_index,
                    *secret_key,
                    *public_key,
                    seed.state@,
                )) =~= complaints@ + spec_generate_seq(
                    full.skip(i as int + 1),
                    associated_data@,
                    receiver_index,
                    *secret_key,
                    *public_key,
                    seed.state@,
                ));
            }
        } else {
            proof {
                reveal(spec_opens_ok);
                assert(spec_opens_ok(
                    full[i as int].1,
                    associated_data@,
                    full[i as int].0,
                    receiver_index,
                    *secret_key,
                    *public_key,
                ));
            }
        }
        i = i + 1;
    }
    proof {
        assert(full.skip(n as int) =~= Seq::<(NodeIndex, IDkgDealingInternal)>::empty());
        assert forall|k: int|
            0 <= k < full.len() && #[trigger] spec_fails_at(
                full,
                k,
                associated_data@,
                receiver_index,
                *secret_key,
                *public_key,
            ) implies spec_new_complaint(
            spec_complaint_seed_state(seed.state@, full[k].0),
            full[k].1,
            full[k].0,
            receiver_index,
            *secret_key,
            *public_key,
            associated_data@,
        ) is Ok by {
            reveal(spec_new_complaint);
            assert(spec_complaint_curve_ok(full[k].1, *secret_key));
        }
        lemma_generate_seq_empty(
            full,
            associated_data@,
            receiver_index,
            *secret_key,
            *public_key,
            seed.state@,
        );
    }
    if complaints.is_empty() {
        return Err(ThresholdEcdsaError::InvalidArguments);
    }
    Ok(complaints)
}

/// A dealing that opens successfully for this receiver draws no complaint:
/// its dealer index is absent from the generated complaint list.
pub proof fn lemma_honest_dealer_absent(
    ds: Seq<(NodeIndex, IDkgDealingInternal)>,
    associated_data: Seq<u8>,
    receiver_index: NodeIndex,
    secret_key: MEGaPrivateKey,
    public_key: MEGaPublicKey,
    seed_state: Seq<u8>,
    k: int,
)
    requires
        spec_indexes_sorted(ds),
        0 <= k < ds.len(),
        spec_opens_ok(ds[k].1, associated_data, ds[k].0, receiver_index, secret_key, public_key),
    ensures
        ({
            let out = spec_generate_seq(
                ds,
                associated_data,
                receiver_index,
                secret_key,
                public_key,
                seed_state,
            );
            forall|j: int| 0 <= j < out.len() ==> (#[trigger] out[j]).0 != ds[k].0
        }),
{
    lemma_generate_seq_members(
        ds,
        associated_data,
        receiver_index,
        secret_key,
        public_key,
        seed_state,
    );
    let out = spec_generate_seq(
        ds,
        associated_data,
        receiver_index,
        secret_key,
        public_key,
        seed_state,
    );
    assert forall|j: int| 0 <= j < out.len() implies (#[trigger] out[j]).0 != ds[k].0 by {
        assert(spec_entry_explained(
            ds,
            out[j],
            associated_data,
            receiver_index,
            secret_key,
            public_key,
            seed_state,
        ));
        let i = choose|i: int|
            0 <= i < ds.len() && (#[trigger] ds[i]).0 == out[j].0 && spec_fails_at(
                ds,
                i,
                associated_data,
                receiver_index,
                secret_key,
                public_key,
            ) && spec_new_complaint(
                spec_complaint_seed_state(seed_state, ds[i].0),
                ds[i].1,
                ds[i].0,
                receiver_index,
                secret_key,
                public_key,
                associated_data,
            ) == Ok::<IDkgComplaintInternal, ThresholdEcdsaError>(out[j].1);
        if out[j].0 == ds[k].0 {
            if i < k {
                assert(ds[i].0 < ds[k].0);
            } else if i > k {
                assert(ds[k].0 < ds[i].0);
            }
            assert(i == k);
            assert(!spec_opens_ok(
                ds[k].1,
                associated_data,
                ds[k].0,
                receiver_index,
                secret_key,
                public_key,
            ));
        }
    }
}

/// A complaint whose proof passes is still rejected, without any
/// decryption, when the dealing's ciphertext variant and commitment
/// variant do not belong together — for every dealer and complainer index.
pub proof fn lemma_mismatched_variants_rejected(
    complaint: IDkgComplaintInternal,
    dealing: IDkgDealingInternal,
    dealer_index: NodeIndex,
    complainer_index: NodeIndex,
    complainer_key: MEGaPublicKey,
    associated_data: Seq<u8>,
)
    requires
        !((dealing.ciphertext is Single && dealing.commitment is Simple) || (dealing.ciphertext
            is Pairs && dealing.commitment is Pedersen)),
        spec_statement_curves_ok(
            complaint.proof,
            EccPoint::spec_generator_g(complaint.shared_secret.spec_curve_type()),
            dealing.ciphertext.spec_ephemeral_key(),
            complainer_key.point,
            complaint.shared_secret,
        ),
        spec_verify_ok(
            complaint.proof,
            EccPoint::spec_generator_g(complaint.shared_secret.spec_curve_type()),
            dealing.ciphertext.spec_ephemeral_key(),
            complainer_key.point,
            complaint.shared_secret,
            spec_proof_assoc_data(
                associated_data,
                complainer_index,
                dealer_index,
                complainer_key,
            ),
        ),
    ensures
        spec_verify_complaint(
            complaint,
            dealing,
            dealer_index,
            complainer_index,
            complainer_key,
            associated_data,
        ) == Err::<(), ThresholdEcdsaError>(ThresholdEcdsaError::UnexpectedCommitmentType),
{
    reveal(spec_verify_complaint);
}

/// A complaint built with the receiver's own key against a dealing whose
/// true opening satisfies the commitment — a dishonest complaint — is
/// created successfully, its enclosed proof is internally valid, and
/// verification nevertheless rejects it with an invalid-complaint error.
pub proof fn lemma_dishonest_complaint_rejected(
    seed_state: Seq<u8>,
    dealing: IDkgDealingInternal,
    dealer_index: NodeIndex,
    receiver_index: NodeIndex,
    secret_key: MEGaPrivateKey,
    associated_data: Seq<u8>,
)
    requires
        dealing.wf(),
        secret_key.wf(),
        spec_opens_ok(
            dealing,
            associated_data,
            dealer_index,
            receiver_index,
            secret_key,
            secret_key.spec_public_key(),
        ),
    ensures
        ({
            let public_key = secret_key.spec_public_key();
            let created = spec_new_complaint(
                seed_state,
                dealing,
                dealer_index,
                receiver_index,
                secret_key,
                public_key,
                associated_data,
            );
            &&& created is Ok
            &&& spec_verify_complaint(
                created.unwrap(),
                dealing,
                dealer_index,
                receiver_index,
                public_key,
                associated_data,
            ) == Err::<(), ThresholdEcdsaError>(ThresholdEcdsaError::InvalidComplaint)
        }),
{
    reveal(spec_opens_ok);
    reveal(spec_new_complaint);
    reveal(spec_verify_complaint);
    let public_key = secret_key.spec_public_key();
    let curve = secret_key.spec_curve_type();
    let eph = dealing.ciphertext.spec_ephemeral_key();
    let generator = EccPoint::spec_generator_g(curve);
    crate::group::lemma_curve_order_bounds(curve);
    assert(eph.spec_curve_type() == curve);
    let shared_secret = eph.spec_scalar_mul(secret_key.secret);
    let assoc = spec_proof_assoc_data(associated_data, receiver_index, dealer_index, public_key);
    crate::zk::lemma_create_verifies(seed_state, secret_key.secret, generator, eph, assoc);
    let created = spec_new_complaint(
        seed_state,
        dealing,
        dealer_index,
        receiver_index,
        secret_key,
        public_key,
        associated_data,
    );
    let complaint = created.unwrap();
    assert(complaint.shared_secret == shared_secret);
    assert(shared_secret.spec_curve_type() == curve);
    assert(spec_statement_curves_ok(
        complaint.proof,
        generator,
        eph,
        public_key.point,
        shared_secret,
    ));
    assert(spec_verify_ok(
        complaint.proof,
        generator,
        eph,
        public_key.point,
        shared_secret,
        assoc,
    ));
}

/// A substantiated complaint is accepted: when a dealing decrypts with the
/// receiver's own key but the opening contradicts the commitment, the
/// complaint the receiver creates verifies successfully for any third
/// party holding the receiver's public key.
pub proof fn lemma_valid_complaint_accepted(
    seed_state: Seq<u8>,
    dealing: IDkgDealingInternal,
    dealer_index: NodeIndex,
    receiver_index: NodeIndex,
    secret_key: MEGaPrivateKey,
    associated_data: Seq<u8>,
)
    requires
        dealing.wf(),
        secret_key.wf(),
        dealing.ciphertext.spec_decrypt_and_check(
            dealing.commitment,
            associated_data,
            dealer_index,
            receiver_index,
            secret_key,
            secret_key.spec_public_key(),
        ) == Err::<CommitmentOpening, ThresholdEcdsaError>(ThresholdEcdsaError::InvalidCommitment),
    ensures
        ({
            let public_key = secret_key.spec_public_key();
            let created = spec_new_complaint(
                seed_state,
                dealing,
                dealer_index,
                receiver_index,
                secret_key,
                public_key,
                associated_data,
            );
            &&& created is Ok
            &&& spec_verify_complaint(
                created.unwrap(),
                dealing,
                dealer_index,
                receiver_index,
                public_key,
                associated_data,
            ) == Ok::<(), ThresholdEcdsaError>(())
        }),
{
    reveal(spec_new_complaint);
    reveal(spec_verify_complaint);
    let public_key = secret_key.spec_public_key();
    let curve = secret_key.spec_curve_type();
    let eph = dealing.ciphertext.spec_ephemeral_key();
    let generator = EccPoint::spec_generator_g(curve);
    crate::group::lemma_curve_order_bounds(curve);
    assert(eph.spec_curve_type() == curve);
    let shared_secret = eph.spec_scalar_mul(secret_key.secret);
    let assoc = spec_proof_assoc_data(associated_data, receiver_index, dealer_index, public_key);
    crate::zk::lemma_create_verifies(seed_state, secret_key.secret, generator, eph, assoc);
    let created = spec_new_complaint(
        seed_state,
        dealing,
        dealer_index,
        receiver_index,
        secret_key,
        public_key,
        associated_data,
    );
    let complaint = created.unwrap();
    assert(complaint.shared_secret == shared_secret);
    assert(spec_statement_curves_ok(
        complaint.proof,
        generator,
        eph,
        public_key.point,
        shared_secret,
    ));
    assert(spec_verify_ok(
        complaint.proof,
        generator,
        eph,
        public_key.point,
        shared_secret,
        assoc,
    ));
}

/// Complaint generation is deterministic: two runs over identical seed,
/// dealings, keys, and associated data produce the same complaint list,
/// and the wire bytes of each produced complaint are likewise identical.
pub proof fn lemma_generate_complaints_deterministic(
    out1: Seq<(NodeIndex, IDkgComplaintInternal)>,
    out2: Seq<(NodeIndex, IDkgComplaintInternal)>,
    ds: Seq<(NodeIndex, IDkgDealingInternal)>,
    associated_data: Seq<u8>,
    receiver_index: NodeIndex,
    secret_key: MEGaPrivateKey,
    public_key: MEGaPublicKey,
    seed_state: Seq<u8>,
)
    requires
        out1 == spec_generate_seq(
            ds,
            associated_data,
            receiver_index,
            secret_key,
            public_key,
            seed_state,
        ),
        out2 == spec_generate_seq(
            ds,
            associated_data,
            receiver_index,
            secret_key,
            public_key,
            seed_state,
        ),
    ensures
        out1 == out2,
        forall|j: int|
            0 <= j < out1.len() ==> spec_serialize((#[trigger] out1[j]).1) == spec_serialize(
                out2[j].1,
            ),
{
}

/// Wire bytes of one scalar: its curve tag, then its residue.
pub open spec fn spec_enc_scalar(s: EccScalar) -> Seq<u8> {
    seq![spec_curve_tag(s.spec_curve_type())] + spec_be64(s.spec_value())
}

/// Wire bytes of one point: its curve tag, then its residue.
pub open spec fn spec_enc_point_bytes(p: EccPoint) -> Seq<u8> {
    seq![spec_curve_tag(p.spec_curve_type())] + spec_be64(p.spec_value())
}

/// The wire encoding of a complaint: a format byte, then the proof's
/// challenge and response, then the shared secret.
pub open spec fn spec_serialize(c: IDkgComplaintInternal) -> Seq<u8> {
    seq![COMPLAINT_FORMAT] + spec_enc_scalar(c.proof.challenge) + spec_enc_scalar(c.proof.response)
        + spec_enc_point_bytes(c.shared_secret)
}

/// The scalar parsed at an offset of the wire bytes, if its curve tag is
/// known and its residue is reduced.
pub open spec fn spec_parse_scalar(bytes: Seq<u8>, off: int) -> Option<EccScalar> {
    match spec_curve_from_tag(bytes[off]) {
        None => None,
        Some(curve) => {
            let value = spec_u64_from_be(
                bytes[off + 1],
                bytes[off + 2],
                bytes[off + 3],
                bytes[off + 4],
                bytes[off + 5],
                bytes[off + 6],
                bytes[off + 7],
                bytes[off + 8],
            );
            if value < spec_curve_order(curve) {
                Some(EccScalar { curve, value })
            } else {
                None
            }
        },
    }
}

/// The point parsed at an offset of the wire bytes.
pub open spec fn spec_parse_point(bytes: Seq<u8>, off: int) -> Option<EccPoint> {
    match spec_curve_from_tag(bytes[off]) {
        None => None,
        Some(curve) => {
            let value = spec_u64_from_be(
                bytes[off + 1],
                bytes[off + 2],
                bytes[off + 3],
                bytes[off + 4],
                bytes[off + 5],
                bytes[off + 6],
                bytes[off + 7],
                bytes[off + 8],
            );
            if value < spec_curve_order(curve) {
                Some(EccPoint { curve, value })
            } else {
                None
            }
        },
    }
}

/// What deserialization returns: the complaint the bytes encode, or a
/// serialization error on any malformed input — wrong length, unknown
/// format or curve tag, an unreduced residue, or proof scalars on two
/// different curves.
pub open spec fn spec_deserialize(bytes: Seq<u8>) -> ThresholdEcdsaResult<IDkgComplaintInternal> {
    if bytes.len() != COMPLAINT_BYTES {
        Err(ThresholdEcdsaError::SerializationError)
    } else if bytes[0] != COMPLAINT_FORMAT {
        Err(ThresholdEcdsaError::SerializationError)
    } else {
        match (spec_parse_scalar(bytes, 1), spec_parse_scalar(bytes, 10), spec_parse_point(
            bytes,
            19,
        )) {
            (Some(challenge), Some(response), Some(shared_secret)) => if response.spec_curve_type()
                == challenge.spec_curve_type() {
                Ok(
                    IDkgComplaintInternal {
                        proof: ProofOfDLogEquivalence { challenge, response },
                        shared_secret,
                    },
                )
            } else {
                Err(ThresholdEcdsaError::SerializationError)
            },
            _ => Err(ThresholdEcdsaError::SerializationError),
        }
    }
}

impl IDkgComplaintInternal {
    /// Serialize this complaint to its compact, self-describing wire
    /// encoding.
    pub fn serialize(&self) -> (r: ThresholdEcdsaResult<Vec<u8>>)
        ensures
            r is Ok,
            r matches Ok(bytes) ==> bytes@ == spec_serialize(*self),
    {
        let mut out: Vec<u8> = Vec::new();
        out.push(COMPLAINT_FORMAT);
        out.push(curve_tag(self.proof.challenge.curve_type()));
        let out = push_be64(out, self.proof.challenge.value());
        let mut out = out;
        out.push(curve_tag(self.proof.response.curve_type()));
        let out = push_be64(out, self.proof.response.value());
        let mut out = out;
        out.push(curve_tag(self.shared_secret.curve_type()));
        let out = push_be64(out, self.shared_secret.value());
        proof {
            assert(out@ =~= spec_serialize(*self));
        }
        Ok(out)
    }

    /// Deserialize a complaint from wire bytes; malformed bytes yield a
    /// serialization error, never a fault.
    pub fn deserialize(bytes: &[u8]) -> (r: ThresholdEcdsaResult<Self>)
        ensures
            r == spec_deserialize(bytes@),
            r matches Ok(c) ==> c.wf(),
    {
        if bytes.len() != COMPLAINT_BYTES {
            return Err(ThresholdEcdsaError::SerializationError);
        }
        if bytes[0] != COMPLAINT_FORMAT {
            return Err(ThresholdEcdsaError::SerializationError);
        }
        let challenge = match parse_scalar(bytes, 1) {
            Some(s) => s,
            None => {
                return Err(ThresholdEcdsaError::SerializationError);
            },
        };
        let response = match parse_scalar(bytes, 10) {
            Some(s) => s,
            None => {
                return Err(ThresholdEcdsaError::SerializationError);
            },
        };
        let shared_secret = match parse_point(bytes, 19) {
            Some(p) => p,
            None => {
                return Err(ThresholdEcdsaError::SerializationError);
            },
        };
        if response.curve_type() != challenge.curve_type() {
            return Err(ThresholdEcdsaError::SerializationError);
        }
        Ok(Self { proof: ProofOfDLogEquivalence { challenge, response }, shared_secret })
    }

    /// Validating conversion from the opaque wire record: deserializes the
    /// raw bytes and surfaces the same serialization error on failure.
    pub fn try_from(complaint: &IDkgComplaint) -> (r: ThresholdEcdsaResult<Self>)
        ensures
            r == spec_deserialize(complaint.internal_complaint_raw@),
            r matches Ok(c) ==> c.wf(),
    {
        Self::deserialize(complaint.internal_complaint_raw.as_slice())
    }
}

/// Deserialization is a left inverse of serialization: every well-formed
/// complaint survives the wire round trip unchanged.
pub proof fn lemma_serialize_round_trip(c: IDkgComplaintInternal)
    requires
        c.wf(),
    ensures
        spec_deserialize(spec_serialize(c)) == Ok::<IDkgComplaintInternal, ThresholdEcdsaError>(c),
{
    let bytes = spec_serialize(c);
    assert(bytes.len() == COMPLAINT_BYTES);
    lemma_be64_round_trip(c.proof.challenge.spec_value());
    lemma_be64_round_trip(c.proof.response.spec_value());
    lemma_be64_round_trip(c.shared_secret.spec_value());
    assert(spec_parse_scalar(bytes, 1) == Some(c.proof.challenge));
    assert(spec_parse_scalar(bytes, 10) == Some(c.proof.response));
    assert(spec_parse_point(bytes, 19) == Some(c.shared_secret));
}

/// Parse a scalar at an offset of the wire bytes.
fn parse_scalar(bytes: &[u8], off: usize) -> (r: Option<EccScalar>)
    requires
        off + 9 <= bytes@.len(),
    ensures
        r == spec_parse_scalar(bytes@, off as int),
{
    let curve = match curve_from_tag(bytes[off]) {
        Some(curve) => curve,
        None => {
            return None;
        },
    };
    let value: u64 = ((bytes[off + 1] as u64) << 56) | ((bytes[off + 2] as u64) << 48) | ((bytes[off
        + 3] as u64) << 40) | ((bytes[off + 4] as u64) << 32) | ((bytes[off + 5] as u64) << 24) | (
    (bytes[off + 6] as u64) << 16) | ((bytes[off + 7] as u64) << 8) | (bytes[off + 8] as u64);
    if value < crate::group::curve_order(curve) {
        Some(EccScalar { curve, value })
    } else {
        None
    }
}

/// Parse a point at an offset of the wire bytes.
fn parse_point(bytes: &[u8], off: usize) -> (r: Option<EccPoint>)
    requires
        off + 9 <= bytes@.len(),
    ensures
        r == spec_parse_point(bytes@, off as int),
{
    let curve = match curve_from_tag(bytes[off]) {
        Some(curve) => curve,
        None => {
            return None;
        },
    };
    let value: u64 = ((bytes[off + 1] as u64) << 56) | ((bytes[off + 2] as u64) << 48) | ((bytes[off
        + 3] as u64) << 40) | ((bytes[off + 4] as u64) << 32) | ((bytes[off + 5] as u64) << 24) | (
    (bytes[off + 6] as u64) << 16) | ((bytes[off + 7] as u64) << 8) | (bytes[off + 8] as u64);
    if value < crate::group::curve_order(curve) {
        Some(EccPoint { curve, value })
    } else {
        None
    }
}

/// Derive the fresh, label-keyed child seed for the complaint against one
/// dealer, so that no two statements ever share proof randomness.
pub fn derive_complaint_seed(seed: &Seed, dealer_index: NodeIndex) -> (r: Seed)
    ensures
        r.state@ == spec_complaint_seed_state(seed.state@, dealer_index),
        r.wf(),
{
    let mut label: Vec<u8> = Vec::new();
    label.push(COMPLAINT_LABEL_PREFIX);
    let label = push_be32(label, dealer_index);
    proof {
        assert(label@ =~= spec_complaint_label(dealer_index));
    }
    seed.derive(label.as_slice())
}

} // verus!
