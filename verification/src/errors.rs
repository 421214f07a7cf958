//! The two business rejections an operation can return.
//!
//! Storage-layer failures (duplicate address, insufficient reserved space) and
//! arithmetic overflow of the stage counter are fatal aborts of the hosting
//! platform, not part of this taxonomy.

use vstd::prelude::*;

verus! {

/// Why a mutating operation was rejected.
#[derive(Clone, Copy, Debug, PartialEq, Eq, Structural)]
pub enum CoffeeError {
    /// The caller does not match the authority the operation requires: the
    /// creator for finalize, the current holder for add-stage and
    /// transfer-custody.
    UnauthorizedActor,
    /// The batch is no longer in progress and cannot be altered.
    BatchIsFinalized,
}

} // verus!
