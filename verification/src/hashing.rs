//! The digest primitive and byte-level encodings shared by the transcript
//! builder, seed derivation, and the complaint codec.

use vstd::prelude::*;

use crate::group::EccCurveType;
use crate::group::EccScalar;

verus! {

/// The SHA-256 digest of a byte string.  The digest is a function of the
/// input alone, so two equal inputs always name the same 32-byte output.
pub uninterp spec fn sha256_of(input: Seq<u8>) -> Seq<u8>;

/// Relies on sha2::Sha256: a deterministic function of the input bytes
/// alone, producing a 32-byte digest.
#[verifier::external_body]
pub fn sha256(input: &[u8]) -> (r: Vec<u8>)
    ensures
        r@ == sha256_of(input@),
        r@.len() == 32,
{
    let digest = <sha2::Sha256 as sha2::Digest>::digest(input);
    digest.to_vec()
}

/// Big-endian bytes of a 64-bit integer.
pub open spec fn spec_be64(x: u64) -> Seq<u8> {
    seq![
        (x >> 56) as u8,
        (x >> 48) as u8,
        (x >> 40) as u8,
        (x >> 32) as u8,
        (x >> 24) as u8,
        (x >> 16) as u8,
        (x >> 8) as u8,
        x as u8,
    ]
}

/// Big-endian bytes of a 32-bit integer.
pub open spec fn spec_be32(x: u32) -> Seq<u8> {
    seq![(x >> 24) as u8, (x >> 16) as u8, (x >> 8) as u8, x as u8]
}

/// The 64-bit integer read back from eight big-endian bytes.
pub open spec fn spec_u64_from_be(
    b0: u8,
    b1: u8,
    b2: u8,
    b3: u8,
    b4: u8,
    b5: u8,
    b6: u8,
    b7: u8,
) -> u64 {
    ((b0 as u64) << 56) | ((b1 as u64) << 48) | ((b2 as u64) << 40) | ((b3 as u64) << 32) | (
    (b4 as u64) << 24) | ((b5 as u64) << 16) | ((b6 as u64) << 8) | (b7 as u64)
}

/// Reading back the big-endian bytes of an integer yields that integer.
pub proof fn lemma_be64_round_trip(x: u64)
    ensures
        spec_u64_from_be(
            (x >> 56) as u8,
            (x >> 48) as u8,
            (x >> 40) as u8,
            (x >> 32) as u8,
            (x >> 24) as u8,
            (x >> 16) as u8,
            (x >> 8) as u8,
            x as u8,
        ) == x,
{
    assert((((x >> 56) as u8 as u64) << 56) | (((x >> 48) as u8 as u64) << 48) | (((x
        >> 40) as u8 as u64) << 40) | (((x >> 32) as u8 as u64) << 32) | (((x >> 24) as u8 as u64)
        << 24) | (((x >> 16) as u8 as u64) << 16) | (((x >> 8) as u8 as u64) << 8) | (
    x as u8 as u64) == x) by (bit_vector);
}

/// Append the big-endian bytes of a 64-bit integer.
pub fn push_be64(out: Vec<u8>, x: u64) -> (r: Vec<u8>)
    ensures
        r@ == out@ + spec_be64(x),
{
    let ghost orig = out@;
    let mut out = out;
    out.push((x >> 56) as u8);
    out.push((x >> 48) as u8);
    out.push((x >> 40) as u8);
    out.push((x >> 32) as u8);
    out.push((x >> 24) as u8);
    out.push((x >> 16) as u8);
    out.push((x >> 8) as u8);
    out.push(x as u8);
    proof {
        assert(out@ =~= orig + spec_be64(x));
    }
    out
}

/// Append the big-endian bytes of a 32-bit integer.
pub fn push_be32(out: Vec<u8>, x: u32) -> (r: Vec<u8>)
    ensures
        r@ == out@ + spec_be32(x),
{
    let ghost orig = out@;
    let mut out = out;
    out.push((x >> 24) as u8);
    out.push((x >> 16) as u8);
    out.push((x >> 8) as u8);
    out.push(x as u8);
    proof {
        assert(out@ =~= orig + spec_be32(x));
    }
    out
}

/// Append a byte string behind its 64-bit big-endian length prefix, so that
/// distinct field sequences never encode to the same transcript bytes.
pub fn push_length_prefixed(out: Vec<u8>, data: &[u8]) -> (r: Vec<u8>)
    ensures
        r@ == out@ + spec_be64(data@.len() as u64) + data@,
{
    let mut out = push_be64(out, data.len() as u64);
    let ghost mid = out@;
    let mut i: usize = 0;
    while i < data.len()
        invariant
            i <= data@.len(),
            out@ == mid + data@.subrange(0, i as int),
        decreases data@.len() - i,
    {
        out.push(data[i]);
        proof {
            assert(mid + data@.subrange(0, i as int) + seq![data@[i as int]] =~= mid
                + data@.subrange(0, i + 1));
        }
        i = i + 1;
    }
    proof {
        assert(data@.subrange(0, data@.len() as int) =~= data@);
    }
    out
}

/// The scalar obtained by reading the first eight bytes of a 32-byte digest
/// as a big-endian integer and reducing it modulo the curve order.
pub open spec fn spec_scalar_from_digest(digest: Seq<u8>, curve: EccCurveType) -> EccScalar
    recommends
        digest.len() >= 8,
{
    EccScalar::spec_from_u64(
        curve,
        spec_u64_from_be(
            digest[0],
            digest[1],
            digest[2],
            digest[3],
            digest[4],
            digest[5],
            digest[6],
            digest[7],
        ),
    )
}

/// Reduce a digest to a scalar of the given curve.
pub fn scalar_from_digest(digest: &Vec<u8>, curve: EccCurveType) -> (r: EccScalar)
    requires
        digest@.len() >= 8,
    ensures
        r == spec_scalar_from_digest(digest@, curve),
        r.wf(),
        r.spec_curve_type() == curve,
{
    let x: u64 = ((digest[0] as u64) << 56) | ((digest[1] as u64) << 48) | ((digest[2] as u64)
        << 40) | ((digest[3] as u64) << 32) | ((digest[4] as u64) << 24) | ((digest[5] as u64)
        << 16) | ((digest[6] as u64) << 8) | (digest[7] as u64);
    EccScalar::from_u64(curve, x)
}

} // verus!
