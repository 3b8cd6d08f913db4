//! Polynomial commitments and their openings.
//!
//! A dealer commits to a secret-sharing polynomial by publishing one group
//! element per coefficient; a receiver's opening is checked by evaluating
//! the committed polynomial at the receiver's evaluation point and
//! comparing it with the group element the opening determines.  Only the
//! consumed interface matters to the complaint protocol: which variants
//! belong together, and whether a given opening satisfies the commitment.

use vstd::prelude::*;

use crate::NodeIndex;
use crate::ThresholdEcdsaError;
use crate::ThresholdEcdsaResult;
use crate::group::EccCurveType;
use crate::group::EccPoint;
use crate::group::EccScalar;
use crate::group::spec_curve_order;

verus! {

/// A decrypted witness: the scalar(s) a share opens to.  Produced only by
/// decryption, never constructed ad hoc by the protocol itself.
#[derive(Clone, Copy, Debug, PartialEq, Eq, Structural)]
pub enum CommitmentOpening {
    Simple(EccScalar),
    Pedersen(EccScalar, EccScalar),
}

impl CommitmentOpening {
    pub open spec fn wf(self) -> bool {
        match self {
            CommitmentOpening::Simple(s) => s.wf(),
            CommitmentOpening::Pedersen(v, m) => v.wf() && m.wf()
                && m.spec_curve_type() == v.spec_curve_type(),
        }
    }
}

/// A commitment binding only the committed values (`y_j = x_j·G`).
#[derive(Clone, Debug)]
pub struct SimpleCommitment {
    pub points: Vec<EccPoint>,
}

/// A perfectly-hiding commitment (`y_j = x_j·G + m_j·H`).
#[derive(Clone, Debug)]
pub struct PedersenCommitment {
    pub points: Vec<EccPoint>,
}

/// A dealer's published polynomial commitment.
#[derive(Clone, Debug)]
pub enum PolynomialCommitment {
    Simple(SimpleCommitment),
    Pedersen(PedersenCommitment),
}

/// Well-formedness of a coefficient list: nonempty, every point reduced,
/// every point on one curve.
pub open spec fn spec_points_wf(points: Seq<EccPoint>) -> bool {
    &&& points.len() >= 1
    &&& forall|i: int|
        0 <= i < points.len() ==> (#[trigger] points[i]).wf() && points[i].spec_curve_type()
            == points[0].spec_curve_type()
}

/// Horner evaluation of the committed polynomial at `x`, modulo `p`:
/// the residue of `c_0 + x·(c_1 + x·(c_2 + ...))`.
pub open spec fn spec_eval_horner(points: Seq<EccPoint>, x: u64, p: u64) -> int
    decreases points.len(),
{
    if points.len() == 0 {
        0
    } else {
        (points.first().spec_value() + x * spec_eval_horner(points.drop_first(), x, p)) % (
        p as int)
    }
}

/// The evaluation point assigned to a receiver index.
pub open spec fn spec_eval_point(index: NodeIndex) -> u64 {
    (index + 1) as u64
}

impl PolynomialCommitment {
    pub open spec fn spec_points(self) -> Seq<EccPoint> {
        match self {
            PolynomialCommitment::Simple(c) => c.points@,
            PolynomialCommitment::Pedersen(c) => c.points@,
        }
    }

    pub open spec fn wf(self) -> bool {
        spec_points_wf(self.spec_points())
    }

    pub open spec fn spec_curve_type(self) -> EccCurveType {
        self.spec_points()[0].spec_curve_type()
    }

    /// What `check_opening` returns: `Ok(true)` exactly when the opening's
    /// group element equals the committed polynomial evaluated at the
    /// index's evaluation point; a typed error on a variant or curve
    /// mismatch between commitment and opening.
    pub open spec fn spec_check_opening(
        self,
        index: NodeIndex,
        opening: CommitmentOpening,
    ) -> ThresholdEcdsaResult<bool> {
        let curve = self.spec_curve_type();
        let p = spec_curve_order(curve);
        let eval = spec_eval_horner(self.spec_points(), spec_eval_point(index), p);
        match (self, opening) {
            (PolynomialCommitment::Simple(_), CommitmentOpening::Simple(s)) => if s.spec_curve_type()
                != curve {
                Err(ThresholdEcdsaError::CurveMismatchError)
            } else {
                Ok(EccPoint::spec_generator_g(curve).spec_scalar_mul(s).spec_value() == eval)
            },
            (PolynomialCommitment::Pedersen(_), CommitmentOpening::Pedersen(v, m)) => if !(
            v.spec_curve_type() == curve && m.spec_curve_type() == curve) {
                Err(ThresholdEcdsaError::CurveMismatchError)
            } else {
                Ok(
                    EccPoint::spec_generator_g(curve).spec_scalar_mul(v).spec_add_points(
                        EccPoint::spec_generator_h(curve).spec_scalar_mul(m),
                    ).spec_value() == eval,
                )
            },
            _ => Err(ThresholdEcdsaError::UnexpectedCommitmentType),
        }
    }

    fn points(&self) -> (r: &Vec<EccPoint>)
        ensures
            r@ == self.spec_points(),
    {
        match self {
            PolynomialCommitment::Simple(c) => &c.points,
            PolynomialCommitment::Pedersen(c) => &c.points,
        }
    }

    pub fn curve_type(&self) -> (r: EccCurveType)
        requires
            self.wf(),
        ensures
            r == self.spec_curve_type(),
    {
        let points = self.points();
        points[0].curve_type()
    }

    /// Check whether an opening satisfies this commitment at the given
    /// receiver index.
    pub fn check_opening(&self, index: NodeIndex, opening: &CommitmentOpening) -> (r:
        ThresholdEcdsaResult<bool>)
        requires
            self.wf(),
            opening.wf(),
        ensures
            r == self.spec_check_opening(index, *opening),
    {
        let curve = self.curve_type();
        let eval = eval_horner(self.points(), index, curve);
        match (self, opening) {
            (PolynomialCommitment::Simple(_), CommitmentOpening::Simple(s)) => {
                if s.curve_type() != curve {
                    Err(ThresholdEcdsaError::CurveMismatchError)
                } else {
                    let lhs = EccPoint::generator_g(curve).scalar_mul(s).unwrap();
                    Ok(lhs.value() == eval)
                }
            },
            (PolynomialCommitment::Pedersen(_), CommitmentOpening::Pedersen(v, m)) => {
                if !(v.curve_type() == curve && m.curve_type() == curve) {
                    Err(ThresholdEcdsaError::CurveMismatchError)
                } else {
                    let gv = EccPoint::generator_g(curve).scalar_mul(v).unwrap();
                    let hm = EccPoint::generator_h(curve).scalar_mul(m).unwrap();
                    let lhs = gv.add_points(&hm).unwrap();
                    Ok(lhs.value() == eval)
                }
            },
            _ => Err(ThresholdEcdsaError::UnexpectedCommitmentType),
        }
    }
}

/// Evaluate a committed polynomial at the evaluation point of `index`.
fn eval_horner(points: &Vec<EccPoint>, index: NodeIndex, curve: EccCurveType) -> (r: u64)
    requires
        spec_points_wf(points@),
        points@[0].spec_curve_type() == curve,
    ensures
        r == spec_eval_horner(points@, spec_eval_point(index), spec_curve_order(curve)),
        r < spec_curve_order(curve),
{
    let p = crate::group::curve_order(curve);
    let x: u64 = (index as u64) + 1;
    let mut acc: u64 = 0;
    let mut i: usize = points.len();
    proof {
        assert(points@.skip(points@.len() as int) =~= Seq::<EccPoint>::empty());
        crate::group::lemma_curve_order_bounds(curve);
    }
    while i > 0
        invariant
            i <= points@.len(),
            spec_points_wf(points@),
            points@[0].spec_curve_type() == curve,
            p == spec_curve_order(curve),
            2 < p < 0x1_0000_0000,
            x == spec_eval_point(index),
            x <= 0x1_0000_0000,
            acc == spec_eval_horner(points@.skip(i as int), x, p),
            acc < p,
        decreases i,
    {
        i = i - 1;
        assert(x * acc <= 0x1_0000_0000 * 0xFFFF_FFFF) by (nonlinear_arith)
            requires
                x <= 0x1_0000_0000,
                acc < 0x1_0000_0000,
        ;
        let c = points[i].value();
        acc = ((c as u64) + (x * acc) % p) % p;
        proof {
            assert(points@.skip(i as int).first() == points@[i as int]);
            assert(points@.skip(i as int).drop_first() =~= points@.skip(i as int + 1));
            lemma_horner_step(points@.skip(i as int), x, p);
        }
    }
    proof {
        assert(points@.skip(0) =~= points@);
    }
    acc
}

/// One Horner step: prepending a coefficient wraps the evaluation in one
/// multiply-add, and reducing the inner product early does not change the
/// residue.
proof fn lemma_horner_step(points: Seq<EccPoint>, x: u64, p: u64)
    requires
        points.len() >= 1,
        p > 1,
    ensures
        spec_eval_horner(points, x, p) == (points.first().spec_value() + (x * spec_eval_horner(
            points.drop_first(),
            x,
            p,
        )) % (p as int)) % (p as int),
{
    let c = points.first().spec_value() as int;
    let rest = spec_eval_horner(points.drop_first(), x, p);
    assert((c + (x * rest) % (p as int)) % (p as int) == (c + x * rest) % (p as int)) by {
        vstd::arithmetic::div_mod::lemma_add_mod_noop_right(c, x * rest, p as int);
    }
}

} // verus!
