//! Size bounds of the record fields, used by the storage-sizing formulas and
//! by the creation preconditions.

use vstd::prelude::*;

verus! {

/// Longest batch id, in bytes.
pub const MAX_BATCH_ID_LEN: usize = 32;

/// Longest producer or farm name, in bytes.
pub const MAX_PRODUCER_NAME_LEN: usize = 64;

/// Longest stage name, in bytes (recommended; not enforced beyond the space
/// each stage record reserves for its own name).
pub const MAX_STAGE_NAME_LEN: usize = 32;

/// Length reserved for an off-ledger data fingerprint, in bytes.
pub const MAX_DATA_HASH_LEN: usize = 64;

} // verus!
