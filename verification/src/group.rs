//! Group arithmetic for the complaint protocol.
//!
//! Points and scalars carry an explicit curve tag; every operation that
//! combines two values checks the tags and fails with a typed error on a
//! mismatch, so cross-curve arithmetic is detectable rather than undefined.
//!
//! The group itself is modeled as the additive group of integers modulo a
//! per-curve prime: a point is a residue, the fixed generators are small
//! nonzero residues, and multiplying a point by a scalar is modular
//! multiplication.  Every algebraic law the protocol relies on is proved
//! from this model.

use vstd::prelude::*;

use crate::ThresholdEcdsaError;
use crate::ThresholdEcdsaResult;

verus! {

/// 2^32 - 5, prime: modulus of the curve tagged `K256`.
pub const K256_ORDER: u64 = 4294967291;

/// 2^32 - 17, prime: modulus of the curve tagged `P256`.
pub const P256_ORDER: u64 = 4294967279;

/// Residue standing for the group generator `G`.
pub const GENERATOR_G_VALUE: u64 = 2;

/// Residue standing for the independent generator `H` used by Pedersen
/// commitments.
pub const GENERATOR_H_VALUE: u64 = 3;

/// Tag naming the curve a point or scalar belongs to.
#[derive(Clone, Copy, Debug, PartialEq, Eq, Structural)]
pub enum EccCurveType {
    K256,
    P256,
}

/// The group order (and scalar modulus) of a curve.
pub open spec fn spec_curve_order(curve: EccCurveType) -> u64 {
    match curve {
        EccCurveType::K256 => K256_ORDER,
        EccCurveType::P256 => P256_ORDER,
    }
}

pub fn curve_order(curve: EccCurveType) -> (r: u64)
    ensures
        r == spec_curve_order(curve),
{
    match curve {
        EccCurveType::K256 => K256_ORDER,
        EccCurveType::P256 => P256_ORDER,
    }
}

pub proof fn lemma_curve_order_bounds(curve: EccCurveType)
    ensures
        2 < spec_curve_order(curve) < 0x1_0000_0000,
{
}

/// Every scalar built by reduction is well formed.
pub broadcast proof fn lemma_spec_from_u64_wf(curve: EccCurveType, value: u64)
    ensures
        (#[trigger] EccScalar::spec_from_u64(curve, value)).wf(),
        EccScalar::spec_from_u64(curve, value).spec_curve_type() == curve,
{
    lemma_curve_order_bounds(curve);
    vstd::arithmetic::div_mod::lemma_mod_bound(value as int, spec_curve_order(curve) as int);
}

/// Adding a reduced residue and then subtracting it again modulo `p`
/// returns the original reduced residue.
pub proof fn lemma_mod_add_sub_cancel(a: int, m: int, p: int)
    requires
        p > 0,
        0 <= a < p,
        0 <= m < p,
    ensures
        (((a + m) % p) + p - m) % p == a,
{
    if a + m < p {
        vstd::arithmetic::div_mod::lemma_small_mod((a + m) as nat, p as nat);
        vstd::arithmetic::div_mod::lemma_mod_add_multiples_vanish(a, p);
        vstd::arithmetic::div_mod::lemma_small_mod(a as nat, p as nat);
    } else {
        vstd::arithmetic::div_mod::lemma_mod_sub_multiples_vanish(a + m, p);
        vstd::arithmetic::div_mod::lemma_small_mod((a + m - p) as nat, p as nat);
        vstd::arithmetic::div_mod::lemma_small_mod(a as nat, p as nat);
    }
}

/// Wire byte naming a curve.
pub open spec fn spec_curve_tag(curve: EccCurveType) -> u8 {
    match curve {
        EccCurveType::K256 => 1u8,
        EccCurveType::P256 => 2u8,
    }
}

pub fn curve_tag(curve: EccCurveType) -> (r: u8)
    ensures
        r == spec_curve_tag(curve),
{
    match curve {
        EccCurveType::K256 => 1u8,
        EccCurveType::P256 => 2u8,
    }
}

/// The curve a wire byte names, if any.
pub open spec fn spec_curve_from_tag(tag: u8) -> Option<EccCurveType> {
    if tag == 1u8 {
        Some(EccCurveType::K256)
    } else if tag == 2u8 {
        Some(EccCurveType::P256)
    } else {
        None
    }
}

pub fn curve_from_tag(tag: u8) -> (r: Option<EccCurveType>)
    ensures
        r == spec_curve_from_tag(tag),
{
    if tag == 1u8 {
        Some(EccCurveType::K256)
    } else if tag == 2u8 {
        Some(EccCurveType::P256)
    } else {
        None
    }
}

/// An exponent: a residue modulo the order of its curve.
#[derive(Clone, Copy, Debug, PartialEq, Eq, Structural)]
pub struct EccScalar {
    pub curve: EccCurveType,
    pub value: u64,
}

/// A group element: a residue modulo the order of its curve.
#[derive(Clone, Copy, Debug, PartialEq, Eq, Structural)]
pub struct EccPoint {
    pub curve: EccCurveType,
    pub value: u64,
}

impl EccScalar {
    /// A scalar is well formed when its residue is reduced.
    pub open spec fn wf(self) -> bool {
        self.value < spec_curve_order(self.curve)
    }

    pub open spec fn spec_curve_type(self) -> EccCurveType {
        self.curve
    }

    pub open spec fn spec_value(self) -> u64 {
        self.value
    }

    pub fn curve_type(&self) -> (r: EccCurveType)
        ensures
            r == self.spec_curve_type(),
    {
        self.curve
    }

    pub fn value(&self) -> (r: u64)
        ensures
            r == self.spec_value(),
    {
        self.value
    }

    pub open spec fn spec_from_u64(curve: EccCurveType, value: u64) -> EccScalar {
        EccScalar { curve, value: (value % spec_curve_order(curve)) as u64 }
    }

    /// The scalar with the given residue, reduced modulo the curve order.
    pub fn from_u64(curve: EccCurveType, value: u64) -> (r: EccScalar)
        ensures
            r == Self::spec_from_u64(curve, value),
            r.wf(),
            r.spec_curve_type() == curve,
    {
        let order = curve_order(curve);
        EccScalar { curve, value: value % order }
    }

    pub open spec fn spec_add(self, other: EccScalar) -> EccScalar {
        EccScalar {
            curve: self.curve,
            value: ((self.value + other.value) % (spec_curve_order(self.curve) as int)) as u64,
        }
    }

    /// Modular sum of two scalars of the same curve.
    pub fn add(&self, other: &EccScalar) -> (r: ThresholdEcdsaResult<EccScalar>)
        requires
            self.wf(),
            other.wf(),
        ensures
            self.curve == other.curve ==> r == Ok::<EccScalar, ThresholdEcdsaError>(
                self.spec_add(*other),
            ),
            self.curve != other.curve ==> r == Err::<EccScalar, ThresholdEcdsaError>(
                ThresholdEcdsaError::CurveMismatchError,
            ),
            r matches Ok(s) ==> s.wf() && s.spec_curve_type() == self.curve,
    {
        if self.curve != other.curve {
            return Err(ThresholdEcdsaError::CurveMismatchError);
        }
        let order = curve_order(self.curve);
        Ok(EccScalar { curve: self.curve, value: (self.value + other.value) % order })
    }

    pub open spec fn spec_mul(self, other: EccScalar) -> EccScalar {
        EccScalar {
            curve: self.curve,
            value: ((self.value * other.value) % (spec_curve_order(self.curve) as int)) as u64,
        }
    }

    /// Modular product of two scalars of the same curve.
    pub fn mul(&self, other: &EccScalar) -> (r: ThresholdEcdsaResult<EccScalar>)
        requires
            self.wf(),
            other.wf(),
        ensures
            self.curve == other.curve ==> r == Ok::<EccScalar, ThresholdEcdsaError>(
                self.spec_mul(*other),
            ),
            self.curve != other.curve ==> r == Err::<EccScalar, ThresholdEcdsaError>(
                ThresholdEcdsaError::CurveMismatchError,
            ),
            r matches Ok(s) ==> s.wf() && s.spec_curve_type() == self.curve,
    {
        if self.curve != other.curve {
            return Err(ThresholdEcdsaError::CurveMismatchError);
        }
        let order = curve_order(self.curve);
        proof {
            lemma_curve_order_bounds(self.curve);
        }
        assert(self.value * other.value <= 0xFFFF_FFFF * 0xFFFF_FFFF) by (nonlinear_arith)
            requires
                self.value < 0x1_0000_0000,
                other.value < 0x1_0000_0000,
        ;
        Ok(EccScalar { curve: self.curve, value: (self.value * other.value) % order })
    }

    pub open spec fn spec_sub(self, other: EccScalar) -> EccScalar {
        EccScalar {
            curve: self.curve,
            value: ((self.value + spec_curve_order(self.curve) - other.value) % (spec_curve_order(self.curve) as int)) as u64,
        }
    }

    /// Modular difference of two scalars of the same curve.
    pub fn sub(&self, other: &EccScalar) -> (r: ThresholdEcdsaResult<EccScalar>)
        requires
            self.wf(),
            other.wf(),
        ensures
            self.curve == other.curve ==> r == Ok::<EccScalar, ThresholdEcdsaError>(
                self.spec_sub(*other),
            ),
            self.curve != other.curve ==> r == Err::<EccScalar, ThresholdEcdsaError>(
                ThresholdEcdsaError::CurveMismatchError,
            ),
            r matches Ok(s) ==> s.wf() && s.spec_curve_type() == self.curve,
    {
        if self.curve != other.curve {
            return Err(ThresholdEcdsaError::CurveMismatchError);
        }
        let order = curve_order(self.curve);
        Ok(EccScalar { curve: self.curve, value: (self.value + order - other.value) % order })
    }
}

impl EccPoint {
    /// A point is well formed when its residue is reduced.
    pub open spec fn wf(self) -> bool {
        self.value < spec_curve_order(self.curve)
    }

    pub open spec fn spec_curve_type(self) -> EccCurveType {
        self.curve
    }

    pub open spec fn spec_value(self) -> u64 {
        self.value
    }

    pub fn curve_type(&self) -> (r: EccCurveType)
        ensures
            r == self.spec_curve_type(),
    {
        self.curve
    }

    pub fn value(&self) -> (r: u64)
        ensures
            r == self.spec_value(),
    {
        self.value
    }

    pub open spec fn spec_generator_g(curve: EccCurveType) -> EccPoint {
        EccPoint { curve, value: GENERATOR_G_VALUE }
    }

    /// The fixed group generator `G` of a curve.
    pub fn generator_g(curve: EccCurveType) -> (r: EccPoint)
        ensures
            r == Self::spec_generator_g(curve),
            r.wf(),
            r.spec_curve_type() == curve,
    {
        proof {
            lemma_curve_order_bounds(curve);
        }
        EccPoint { curve, value: GENERATOR_G_VALUE }
    }

    pub open spec fn spec_generator_h(curve: EccCurveType) -> EccPoint {
        EccPoint { curve, value: GENERATOR_H_VALUE }
    }

    /// The independent generator `H` used by Pedersen commitments.
    pub fn generator_h(curve: EccCurveType) -> (r: EccPoint)
        ensures
            r == Self::spec_generator_h(curve),
            r.wf(),
            r.spec_curve_type() == curve,
    {
        proof {
            lemma_curve_order_bounds(curve);
        }
        EccPoint { curve, value: GENERATOR_H_VALUE }
    }

    pub open spec fn spec_from_u64(curve: EccCurveType, value: u64) -> EccPoint {
        EccPoint { curve, value: (value % spec_curve_order(curve)) as u64 }
    }

    /// The point with the given residue, reduced modulo the curve order.
    pub fn from_u64(curve: EccCurveType, value: u64) -> (r: EccPoint)
        ensures
            r == Self::spec_from_u64(curve, value),
            r.wf(),
            r.spec_curve_type() == curve,
    {
        let order = curve_order(curve);
        EccPoint { curve, value: value % order }
    }

    pub open spec fn spec_scalar_mul(self, scalar: EccScalar) -> EccPoint {
        EccPoint {
            curve: self.curve,
            value: ((self.value * scalar.value) % (spec_curve_order(self.curve) as int)) as u64,
        }
    }

    /// The point multiplied by a scalar of the same curve.
    pub fn scalar_mul(&self, scalar: &EccScalar) -> (r: ThresholdEcdsaResult<EccPoint>)
        requires
            self.wf(),
            scalar.wf(),
        ensures
            self.curve == scalar.spec_curve_type() ==> r == Ok::<EccPoint, ThresholdEcdsaError>(
                self.spec_scalar_mul(*scalar),
            ),
            self.curve != scalar.spec_curve_type() ==> r == Err::<EccPoint, ThresholdEcdsaError>(
                ThresholdEcdsaError::CurveMismatchError,
            ),
            r matches Ok(p) ==> p.wf() && p.spec_curve_type() == self.curve,
    {
        if self.curve != scalar.curve_type() {
            return Err(ThresholdEcdsaError::CurveMismatchError);
        }
        let order = curve_order(self.curve);
        proof {
            lemma_curve_order_bounds(self.curve);
        }
        assert(self.value * scalar.spec_value() <= 0xFFFF_FFFF * 0xFFFF_FFFF) by (nonlinear_arith)
            requires
                self.value < 0x1_0000_0000,
                scalar.spec_value() < 0x1_0000_0000,
        ;
        Ok(EccPoint { curve: self.curve, value: (self.value * scalar.value()) % order })
    }

    pub open spec fn spec_add_points(self, other: EccPoint) -> EccPoint {
        EccPoint {
            curve: self.curve,
            value: ((self.value + other.value) % (spec_curve_order(self.curve) as int)) as u64,
        }
    }

    /// Group sum of two points of the same curve.
    pub fn add_points(&self, other: &EccPoint) -> (r: ThresholdEcdsaResult<EccPoint>)
        requires
            self.wf(),
            other.wf(),
        ensures
            self.curve == other.curve ==> r == Ok::<EccPoint, ThresholdEcdsaError>(
                self.spec_add_points(*other),
            ),
            self.curve != other.curve ==> r == Err::<EccPoint, ThresholdEcdsaError>(
                ThresholdEcdsaError::CurveMismatchError,
            ),
            r matches Ok(p) ==> p.wf() && p.spec_curve_type() == self.curve,
    {
        if self.curve != other.curve {
            return Err(ThresholdEcdsaError::CurveMismatchError);
        }
        let order = curve_order(self.curve);
        Ok(EccPoint { curve: self.curve, value: (self.value + other.value) % order })
    }

    pub open spec fn spec_sub_points(self, other: EccPoint) -> EccPoint {
        EccPoint {
            curve: self.curve,
            value: ((self.value + spec_curve_order(self.curve) - other.value) % (spec_curve_order(self.curve) as int)) as u64,
        }
    }

    /// Group difference of two points of the same curve.
    pub fn sub_points(&self, other: &EccPoint) -> (r: ThresholdEcdsaResult<EccPoint>)
        requires
            self.wf(),
            other.wf(),
        ensures
            self.curve == other.curve ==> r == Ok::<EccPoint, ThresholdEcdsaError>(
                self.spec_sub_points(*other),
            ),
            self.curve != other.curve ==> r == Err::<EccPoint, ThresholdEcdsaError>(
                ThresholdEcdsaError::CurveMismatchError,
            ),
            r matches Ok(p) ==> p.wf() && p.spec_curve_type() == self.curve,
    {
        if self.curve != other.curve {
            return Err(ThresholdEcdsaError::CurveMismatchError);
        }
        let order = curve_order(self.curve);
        Ok(EccPoint { curve: self.curve, value: (self.value + order - other.value) % order })
    }
}

} // verus!
