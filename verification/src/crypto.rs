//! The two primitives that the token scheme buys in: random numbers from the
//! operating system and SHA-256. Neither is proved here; their contracts say
//! what the rest of the library relies on.

use rand::distributions::Uniform;
use rand::rngs::OsRng;
use rand::Rng;
use sha2::{Digest, Sha256};
use vstd::prelude::*;

verus! {

/// The SHA-256 digest of a byte string, as `sha2` computes it.
pub uninterp spec fn sha256_digest(data: Seq<u8>) -> Seq<u8>;

/// The length of a SHA-256 digest in bytes.
pub const DIGEST_LENGTH: usize = 32;

/// Calls `rand::Rng::sample` on `OsRng` with `Uniform::from(0..bound)`.
///
/// Trusted: the sample lies in `0..bound`. Constructing the distribution
/// panics on an empty range, hence the `requires`. Nothing is said of which
/// value comes back: it is drawn from the operating system's entropy source.
#[verifier::external_body]
pub(crate) fn random_index(bound: usize) -> (index: usize)
    requires
        bound > 0,
    ensures
        index < bound,
{
    OsRng.sample(Uniform::from(0..bound))
}

/// Calls `sha2::Sha256::digest` and copies the output into a `Vec`.
///
/// Trusted: the result is the SHA-256 digest of `data`, a function of the
/// bytes alone, and it is 32 bytes long.
#[verifier::external_body]
pub(crate) fn sha256(data: &[u8]) -> (digest: Vec<u8>)
    ensures
        digest@ == sha256_digest(data@),
        digest@.len() == DIGEST_LENGTH,
{
    Sha256::digest(data).as_slice().to_vec()
}

} // verus!
