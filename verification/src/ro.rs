//! Domain-separated transcript hashing.
//!
//! A `RandomOracle` accumulates a transcript: a one-byte domain label
//! followed by a sequence of named, typed, length-prefixed fields, appended
//! in call order.  The output is the SHA-256 digest of the transcript (or
//! that digest reduced to a scalar).  Because every field carries its name,
//! a type tag, and an unambiguous length prefix, two different field
//! sequences never produce the same transcript bytes, so a digest built for
//! one (domain, fields) tuple cannot be reinterpreted as another.

use vstd::prelude::*;

use crate::group::EccCurveType;
use crate::group::EccPoint;
use crate::group::EccScalar;
use crate::group::curve_tag;
use crate::group::spec_curve_tag;
use crate::hashing::push_be32;
use crate::hashing::push_be64;
use crate::hashing::push_length_prefixed;
use crate::hashing::scalar_from_digest;
use crate::hashing::sha256;
use crate::hashing::sha256_of;
use crate::hashing::spec_be32;
use crate::hashing::spec_be64;
use crate::hashing::spec_scalar_from_digest;

verus! {

/// Type tag of a length-prefixed byte-string field.
pub const FIELD_BYTESTRING: u8 = 1;

/// Type tag of a 32-bit integer field.
pub const FIELD_U32: u8 = 2;

/// Type tag of a group-element field.
pub const FIELD_POINT: u8 = 3;

/// Transcript of a byte-string field.
pub open spec fn enc_bytestring(name: u8, data: Seq<u8>) -> Seq<u8> {
    seq![name, FIELD_BYTESTRING] + spec_be64(data.len() as u64) + data
}

/// Transcript of a 32-bit integer field.
pub open spec fn enc_u32(name: u8, x: u32) -> Seq<u8> {
    seq![name, FIELD_U32] + spec_be32(x)
}

/// Transcript of a group-element field.
pub open spec fn enc_point(name: u8, p: EccPoint) -> Seq<u8> {
    seq![name, FIELD_POINT, spec_curve_tag(p.spec_curve_type())] + spec_be64(p.spec_value())
}

/// An accumulating domain-separated transcript.
pub struct RandomOracle {
    pub input: Vec<u8>,
}

impl RandomOracle {
    /// A fresh transcript holding only the domain label.
    pub fn new(domain: u8) -> (r: RandomOracle)
        ensures
            r.input@ == seq![domain],
    {
        let mut input: Vec<u8> = Vec::new();
        input.push(domain);
        proof {
            assert(input@ =~= seq![domain]);
        }
        RandomOracle { input }
    }

    /// Append a named byte-string field.
    pub fn add_bytestring(self, name: u8, data: &[u8]) -> (r: RandomOracle)
        ensures
            r.input@ == self.input@ + enc_bytestring(name, data@),
    {
        let ghost orig = self.input@;
        let mut input = self.input;
        input.push(name);
        input.push(FIELD_BYTESTRING);
        let input = push_length_prefixed(input, data);
        proof {
            assert(input@ =~= orig + enc_bytestring(name, data@));
        }
        RandomOracle { input }
    }

    /// Append a named 32-bit integer field.
    pub fn add_u32(self, name: u8, x: u32) -> (r: RandomOracle)
        ensures
            r.input@ == self.input@ + enc_u32(name, x),
    {
        let ghost orig = self.input@;
        let mut input = self.input;
        input.push(name);
        input.push(FIELD_U32);
        let input = push_be32(input, x);
        proof {
            assert(input@ =~= orig + enc_u32(name, x));
        }
        RandomOracle { input }
    }

    /// Append a named group-element field.
    pub fn add_point(self, name: u8, p: &EccPoint) -> (r: RandomOracle)
        ensures
            r.input@ == self.input@ + enc_point(name, *p),
    {
        let ghost orig = self.input@;
        let mut input = self.input;
        input.push(name);
        input.push(FIELD_POINT);
        input.push(curve_tag(p.curve_type()));
        let input = push_be64(input, p.value());
        proof {
            assert(input@ =~= orig + enc_point(name, *p));
        }
        RandomOracle { input }
    }

    /// The 32-byte digest of the accumulated transcript.
    pub fn output_bytestring(self) -> (r: Vec<u8>)
        ensures
            r@ == sha256_of(self.input@),
            r@.len() == 32,
    {
        sha256(self.input.as_slice())
    }

    /// The digest of the accumulated transcript, reduced to a scalar.
    pub fn output_scalar(self, curve: EccCurveType) -> (r: EccScalar)
        ensures
            r == spec_scalar_from_digest(sha256_of(self.input@), curve),
            r.wf(),
            r.spec_curve_type() == curve,
    {
        let digest = sha256(self.input.as_slice());
        scalar_from_digest(&digest, curve)
    }
}

} // verus!
