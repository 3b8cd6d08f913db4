//! Deterministic randomness: an opaque 32-byte state with label-keyed
//! child-seed derivation.  The same (seed, label) pair always yields the
//! same child seed, and the derivation transcript length-prefixes both the
//! state and the label, so distinct labels give independent children.

use vstd::prelude::*;

use crate::hashing::push_length_prefixed;
use crate::hashing::sha256;
use crate::hashing::sha256_of;
use crate::hashing::spec_be64;

verus! {

/// Domain label of the seed-derivation transcript.
pub const DOMAIN_SEED_DERIVE: u8 = 16;

/// A deterministic randomness source.
#[derive(Clone, Debug, PartialEq, Eq)]
pub struct Seed {
    pub state: Vec<u8>,
}

/// The state of the child seed derived from `state` under `label`.
pub open spec fn spec_derive(state: Seq<u8>, label: Seq<u8>) -> Seq<u8> {
    sha256_of(
        seq![DOMAIN_SEED_DERIVE] + spec_be64(state.len() as u64) + state + spec_be64(
            label.len() as u64,
        ) + label,
    )
}

impl Seed {
    /// A seed is well formed when its state is a full digest.
    pub open spec fn wf(self) -> bool {
        self.state@.len() == 32
    }

    /// The seed whose state is the digest of the given bytes.
    pub fn from_bytes(bytes: &[u8]) -> (r: Seed)
        ensures
            r.state@ == sha256_of(bytes@),
            r.wf(),
    {
        Seed { state: sha256(bytes) }
    }

    /// The label-keyed child of this seed.
    pub fn derive(&self, label: &[u8]) -> (r: Seed)
        ensures
            r.state@ == spec_derive(self.state@, label@),
            r.wf(),
    {
        let mut input: Vec<u8> = Vec::new();
        input.push(DOMAIN_SEED_DERIVE);
        let input = push_length_prefixed(input, self.state.as_slice());
        let input = push_length_prefixed(input, label);
        proof {
            assert(input@ =~= seq![DOMAIN_SEED_DERIVE] + spec_be64(self.state@.len() as u64)
                + self.state@ + spec_be64(label@.len() as u64) + label@);
        }
        Seed { state: sha256(input.as_slice()) }
    }
}

} // verus!
