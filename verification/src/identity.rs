//! Caller and holder identities.
//!
//! The hosting platform authenticates every caller cryptographically before an
//! operation runs; this crate receives the caller's 256-bit public key as an
//! opaque comparable value with no further verification duty. The key's 32
//! bytes are carried as four 64-bit words.

use vstd::prelude::*;

verus! {

/// An authenticated identity: a 256-bit public key, held as four 64-bit
/// words. Compared only for equality; never inspected further.
#[derive(Clone, Copy, Debug, PartialEq, Eq, Structural)]
pub struct IdentityKey {
    pub w0: u64,
    pub w1: u64,
    pub w2: u64,
    pub w3: u64,
}

impl IdentityKey {
    /// Builds a key from its four 64-bit words.
    pub fn new(w0: u64, w1: u64, w2: u64, w3: u64) -> (r: IdentityKey)
        ensures
            r == (IdentityKey { w0, w1, w2, w3 }),
    {
        IdentityKey { w0, w1, w2, w3 }
    }
}

} // verus!
