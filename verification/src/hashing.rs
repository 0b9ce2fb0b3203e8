//! Identity and content-id derivation.
//!
//! An identity is an opaque unsigned 64-bit value derived deterministically
//! from a username; a content-id is derived the same way from a track's
//! resolved metadata.  The hash itself is computed by an outside crate and
//! is only named here: nothing in the contracts depends on its value on any
//! given input, only on it being a function of the input bytes.

use vstd::prelude::*;

verus! {

/// The value seahash assigns to a byte sequence.  Named, not stated: the
/// algorithm is the outside crate's; all callers need is that equal inputs
/// hash equally.
pub uninterp spec fn sea_hash_of(bytes: Seq<u8>) -> u64;

/// Relies on seahash::hash: the result is a pure function of the input
/// bytes, stable across processes and machines.
#[verifier::external_body]
pub fn hash_bytes(bytes: &[u8]) -> (r: u64)
    ensures
        r == sea_hash_of(bytes@),
{
    seahash::hash(bytes)
}

} // verus!
