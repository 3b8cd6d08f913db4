//! Non-interactive zero-knowledge proof of discrete-log equivalence.
//!
//! A proof shows knowledge of one scalar `x` with `y1 = x·base1` and
//! `y2 = x·base2`, without revealing `x`.  The interactive protocol is made
//! non-interactive by deriving the challenge from a domain-separated
//! transcript over `(base1, base2, y1, y2, R1, R2, associated data)`, so a
//! proof is bound to the exact statement and context it was created for.
//!
//! The nonce of each proof comes only from the caller-supplied seed:
//! reusing one seed for two different statements proved with the same
//! secret scalar leaks the scalar, so callers must derive a fresh,
//! label-keyed child seed per statement.

use vstd::prelude::*;

use crate::ThresholdEcdsaError;
use crate::ThresholdEcdsaResult;
use crate::group::EccCurveType;
use crate::group::EccPoint;
use crate::group::EccScalar;
use crate::hashing::sha256_of;
use crate::hashing::spec_scalar_from_digest;
use crate::ro::RandomOracle;
use crate::ro::enc_bytestring;
use crate::ro::enc_point;
use crate::seed::Seed;

verus! {

/// Domain label of the challenge transcript.
pub const DOMAIN_ZK_CHALLENGE: u8 = 32;

/// Domain label of the nonce transcript.
pub const DOMAIN_ZK_NONCE: u8 = 33;

/// Field names of the challenge transcript.
pub const NAME_BASE1: u8 = 1;

pub const NAME_BASE2: u8 = 2;

pub const NAME_Y1: u8 = 3;

pub const NAME_Y2: u8 = 4;

pub const NAME_COMMITMENT1: u8 = 5;

pub const NAME_COMMITMENT2: u8 = 6;

pub const NAME_ASSOC_DATA: u8 = 7;

/// Field name of the nonce transcript.
pub const NAME_SEED: u8 = 8;

/// A non-interactive discrete-log-equivalence proof transcript.
#[derive(Clone, Copy, Debug, PartialEq, Eq, Structural)]
pub struct ProofOfDLogEquivalence {
    pub challenge: EccScalar,
    pub response: EccScalar,
}

/// The Fiat-Shamir challenge over the full statement and context.
pub open spec fn spec_challenge(
    curve: EccCurveType,
    base1: EccPoint,
    base2: EccPoint,
    y1: EccPoint,
    y2: EccPoint,
    r1: EccPoint,
    r2: EccPoint,
    assoc_data: Seq<u8>,
) -> EccScalar {
    spec_scalar_from_digest(
        sha256_of(
            seq![DOMAIN_ZK_CHALLENGE] + enc_point(NAME_BASE1, base1) + enc_point(NAME_BASE2, base2)
                + enc_point(NAME_Y1, y1) + enc_point(NAME_Y2, y2) + enc_point(
                NAME_COMMITMENT1,
                r1,
            ) + enc_point(NAME_COMMITMENT2, r2) + enc_bytestring(NAME_ASSOC_DATA, assoc_data),
        ),
        curve,
    )
}

/// The proof nonce: a scalar derived from the seed state alone.
pub open spec fn spec_nonce(seed_state: Seq<u8>, curve: EccCurveType) -> EccScalar {
    spec_scalar_from_digest(
        sha256_of(seq![DOMAIN_ZK_NONCE] + enc_bytestring(NAME_SEED, seed_state)),
        curve,
    )
}

/// The proof that `spec_create` returns on curve-consistent inputs.
pub open spec fn spec_create(
    seed_state: Seq<u8>,
    secret: EccScalar,
    base1: EccPoint,
    base2: EccPoint,
    assoc_data: Seq<u8>,
) -> ProofOfDLogEquivalence {
    let curve = secret.spec_curve_type();
    let nonce = spec_nonce(seed_state, curve);
    let y1 = base1.spec_scalar_mul(secret);
    let y2 = base2.spec_scalar_mul(secret);
    let r1 = base1.spec_scalar_mul(nonce);
    let r2 = base2.spec_scalar_mul(nonce);
    let challenge = spec_challenge(curve, base1, base2, y1, y2, r1, r2, assoc_data);
    let response = challenge.spec_mul(secret).spec_add(nonce);
    ProofOfDLogEquivalence { challenge, response }
}

/// Whether all parts of a verification statement share one curve.
pub open spec fn spec_statement_curves_ok(
    proof: ProofOfDLogEquivalence,
    base1: EccPoint,
    base2: EccPoint,
    y1: EccPoint,
    y2: EccPoint,
) -> bool {
    &&& base2.spec_curve_type() == base1.spec_curve_type()
    &&& y1.spec_curve_type() == base1.spec_curve_type()
    &&& y2.spec_curve_type() == base1.spec_curve_type()
    &&& proof.challenge.spec_curve_type() == base1.spec_curve_type()
    &&& proof.response.spec_curve_type() == base1.spec_curve_type()
}

/// Whether the recomputed challenge of a curve-consistent statement matches
/// the one carried by the proof.
pub open spec fn spec_verify_ok(
    proof: ProofOfDLogEquivalence,
    base1: EccPoint,
    base2: EccPoint,
    y1: EccPoint,
    y2: EccPoint,
    assoc_data: Seq<u8>,
) -> bool {
    let curve = base1.spec_curve_type();
    let r1 = base1.spec_scalar_mul(proof.response).spec_sub_points(
        y1.spec_scalar_mul(proof.challenge),
    );
    let r2 = base2.spec_scalar_mul(proof.response).spec_sub_points(
        y2.spec_scalar_mul(proof.challenge),
    );
    spec_challenge(curve, base1, base2, y1, y2, r1, r2, assoc_data) == proof.challenge
}

impl ProofOfDLogEquivalence {
    /// Both scalars of the proof are reduced and share one curve.
    pub open spec fn wf(self) -> bool {
        &&& self.challenge.wf()
        &&& self.response.wf()
        &&& self.response.spec_curve_type() == self.challenge.spec_curve_type()
    }

    pub open spec fn spec_curve_type(self) -> EccCurveType {
        self.challenge.spec_curve_type()
    }

    /// Create a proof that one scalar relates `(base1, x·base1)` and
    /// `(base2, x·base2)`, with its nonce drawn from `seed` alone.
    pub fn create(
        seed: &Seed,
        secret: &EccScalar,
        base1: &EccPoint,
        base2: &EccPoint,
        assoc_data: &[u8],
    ) -> (r: ThresholdEcdsaResult<ProofOfDLogEquivalence>)
        requires
            secret.wf(),
            base1.wf(),
            base2.wf(),
        ensures
            base1.spec_curve_type() == secret.spec_curve_type() && base2.spec_curve_type()
                == secret.spec_curve_type() ==> r == Ok::<
                ProofOfDLogEquivalence,
                ThresholdEcdsaError,
            >(spec_create(seed.state@, *secret, *base1, *base2, assoc_data@)),
            !(base1.spec_curve_type() == secret.spec_curve_type() && base2.spec_curve_type()
                == secret.spec_curve_type()) ==> r == Err::<
                ProofOfDLogEquivalence,
                ThresholdEcdsaError,
            >(ThresholdEcdsaError::CurveMismatchError),
            r matches Ok(proof) ==> proof.wf() && proof.spec_curve_type()
                == secret.spec_curve_type(),
    {
        let curve = secret.curve_type();
        if base1.curve_type() != curve || base2.curve_type() != curve {
            return Err(ThresholdEcdsaError::CurveMismatchError);
        }
        let nonce = RandomOracle::new(DOMAIN_ZK_NONCE).add_bytestring(
            NAME_SEED,
            seed.state.as_slice(),
        ).output_scalar(curve);
        let y1 = base1.scalar_mul(secret)?;
        let y2 = base2.scalar_mul(secret)?;
        let r1 = base1.scalar_mul(&nonce)?;
        let r2 = base2.scalar_mul(&nonce)?;
        let challenge = challenge_scalar(curve, base1, base2, &y1, &y2, &r1, &r2, assoc_data);
        let cx = challenge.mul(secret)?;
        let response = cx.add(&nonce)?;
        Ok(ProofOfDLogEquivalence { challenge, response })
    }

    /// Verify the proof against a statement `(base1, base2, y1, y2)` and the
    /// associated data.  Fails closed: a curve mismatch anywhere in the
    /// statement, or any change to the statement or the associated data
    /// between creation and verification, yields a typed rejection.
    pub fn verify(
        &self,
        base1: &EccPoint,
        base2: &EccPoint,
        y1: &EccPoint,
        y2: &EccPoint,
        assoc_data: &[u8],
    ) -> (r: ThresholdEcdsaResult<()>)
        requires
            self.wf(),
            base1.wf(),
            base2.wf(),
            y1.wf(),
            y2.wf(),
        ensures
            !spec_statement_curves_ok(*self, *base1, *base2, *y1, *y2) ==> r == Err::<
                (),
                ThresholdEcdsaError,
            >(ThresholdEcdsaError::CurveMismatchError),
            spec_statement_curves_ok(*self, *base1, *base2, *y1, *y2) ==> r == (if spec_verify_ok(
                *self,
                *base1,
                *base2,
                *y1,
                *y2,
                assoc_data@,
            ) {
                Ok::<(), ThresholdEcdsaError>(())
            } else {
                Err::<(), ThresholdEcdsaError>(ThresholdEcdsaError::InvalidProof)
            }),
    {
        let curve = base1.curve_type();
        if base2.curve_type() != curve || y1.curve_type() != curve || y2.curve_type() != curve
            || self.challenge.curve_type() != curve || self.response.curve_type() != curve {
            return Err(ThresholdEcdsaError::CurveMismatchError);
        }
        let b1z = base1.scalar_mul(&self.response)?;
        let y1c = y1.scalar_mul(&self.challenge)?;
        let r1 = b1z.sub_points(&y1c)?;
        let b2z = base2.scalar_mul(&self.response)?;
        let y2c = y2.scalar_mul(&self.challenge)?;
        let r2 = b2z.sub_points(&y2c)?;
        let recomputed = challenge_scalar(curve, base1, base2, y1, y2, &r1, &r2, assoc_data);
        if recomputed == self.challenge {
            Ok(())
        } else {
            Err(ThresholdEcdsaError::InvalidProof)
        }
    }
}

/// The algebraic heart of completeness: with response
/// `z = (c·x + r) mod p`, the verifier's reconstruction
/// `z·b − c·(x·b)` equals the prover's commitment `r·b`, all modulo `p`.
proof fn lemma_response_identity(b: int, x: int, r: int, cc: int, p: int)
    requires
        p > 1,
        0 <= b < p,
        0 <= x < p,
        0 <= r < p,
        0 <= cc < p,
    ensures
        ({
            let z = ((cc * x) % p + r) % p;
            ((b * z) % p + p - ((((b * x) % p) * cc) % p)) % p == (b * r) % p
        }),
{
    let cx = (cc * x) % p;
    let z = (cx + r) % p;
    let a_val = ((b * x) * cc) % p;
    let b_val = (b * r) % p;
    vstd::arithmetic::div_mod::lemma_mul_mod_noop_right(b, cx + r, p);
    assert(b * (cx + r) == b * cx + b * r) by {
        vstd::arithmetic::mul::lemma_mul_is_distributive_add(b, cx, r);
    }
    vstd::arithmetic::div_mod::lemma_add_mod_noop(b * cx, b * r, p);
    vstd::arithmetic::div_mod::lemma_mul_mod_noop_right(b, cc * x, p);
    vstd::arithmetic::div_mod::lemma_mul_mod_noop_left(b * x, cc, p);
    assert(b * (cc * x) == (b * x) * cc) by (nonlinear_arith);
    vstd::arithmetic::div_mod::lemma_mod_bound((b * x) * cc, p);
    vstd::arithmetic::div_mod::lemma_mod_bound(b * r, p);
    assert((b * z) % p == (a_val + b_val) % p);
    crate::group::lemma_mod_add_sub_cancel(b_val, a_val, p);
    assert((b_val + a_val) % p == (a_val + b_val) % p);
}

/// Completeness of the proof system: a proof created over curve-consistent
/// inputs verifies against the statement it was created for — the honest
/// public values `x·base1` and `x·base2`, the same bases, and the same
/// associated data.
pub proof fn lemma_create_verifies(
    seed_state: Seq<u8>,
    secret: EccScalar,
    base1: EccPoint,
    base2: EccPoint,
    assoc_data: Seq<u8>,
)
    requires
        secret.wf(),
        base1.wf(),
        base2.wf(),
        base1.spec_curve_type() == secret.spec_curve_type(),
        base2.spec_curve_type() == secret.spec_curve_type(),
    ensures
        ({
            let proof = spec_create(seed_state, secret, base1, base2, assoc_data);
            let y1 = base1.spec_scalar_mul(secret);
            let y2 = base2.spec_scalar_mul(secret);
            &&& spec_statement_curves_ok(proof, base1, base2, y1, y2)
            &&& spec_verify_ok(proof, base1, base2, y1, y2, assoc_data)
        }),
{
    let curve = secret.spec_curve_type();
    let p = crate::group::spec_curve_order(curve) as int;
    crate::group::lemma_curve_order_bounds(curve);
    let nonce = spec_nonce(seed_state, curve);
    let y1 = base1.spec_scalar_mul(secret);
    let y2 = base2.spec_scalar_mul(secret);
    let r1 = base1.spec_scalar_mul(nonce);
    let r2 = base2.spec_scalar_mul(nonce);
    let challenge = spec_challenge(curve, base1, base2, y1, y2, r1, r2, assoc_data);
    let proof = spec_create(seed_state, secret, base1, base2, assoc_data);
    let z = proof.response;
    broadcast use crate::group::lemma_spec_from_u64_wf;

    assert(nonce.wf() && challenge.wf());
    lemma_response_identity(
        base1.spec_value() as int,
        secret.spec_value() as int,
        nonce.spec_value() as int,
        challenge.spec_value() as int,
        p,
    );
    lemma_response_identity(
        base2.spec_value() as int,
        secret.spec_value() as int,
        nonce.spec_value() as int,
        challenge.spec_value() as int,
        p,
    );
    assert(base1.spec_scalar_mul(z).spec_sub_points(y1.spec_scalar_mul(proof.challenge)) == r1);
    assert(base2.spec_scalar_mul(z).spec_sub_points(y2.spec_scalar_mul(proof.challenge)) == r2);
}

/// Recompute the Fiat-Shamir challenge of a statement.
fn challenge_scalar(
    curve: EccCurveType,
    base1: &EccPoint,
    base2: &EccPoint,
    y1: &EccPoint,
    y2: &EccPoint,
    r1: &EccPoint,
    r2: &EccPoint,
    assoc_data: &[u8],
) -> (r: EccScalar)
    ensures
        r == spec_challenge(curve, *base1, *base2, *y1, *y2, *r1, *r2, assoc_data@),
        r.wf(),
        r.spec_curve_type() == curve,
{
    let ro = RandomOracle::new(DOMAIN_ZK_CHALLENGE).add_point(NAME_BASE1, base1).add_point(
        NAME_BASE2,
        base2,
    ).add_point(NAME_Y1, y1).add_point(NAME_Y2, y2).add_point(NAME_COMMITMENT1, r1).add_point(
        NAME_COMMITMENT2,
        r2,
    ).add_bytestring(NAME_ASSOC_DATA, assoc_data);
    proof {
        assert(ro.input@ =~= seq![DOMAIN_ZK_CHALLENGE] + enc_point(NAME_BASE1, *base1) + enc_point(
            NAME_BASE2,
            *base2,
        ) + enc_point(NAME_Y1, *y1) + enc_point(NAME_Y2, *y2) + enc_point(NAME_COMMITMENT1, *r1)
            + enc_point(NAME_COMMITMENT2, *r2) + enc_bytestring(NAME_ASSOC_DATA, assoc_data@));
    }
    ro.output_scalar(curve)
}

} // verus!
