//! Sealing a batch's history permanently.

use vstd::prelude::*;

use crate::errors::CoffeeError;
use crate::events::BatchFinalized;
use crate::guard::{creator_gate, require_creator};
use crate::identity::IdentityKey;
use crate::state::batch::{Batch, BatchStatus};

verus! {

/// Everything the finalize operation promises. On success the creator gate
/// passed, the status becomes `Completed` while every other field is left
/// untouched, and the event carries the call's timestamp. On rejection the
/// batch is untouched and the error is exactly what the creator gate
/// prescribes.
pub open spec fn finalize_batch_post(
    pre: Batch,
    post: Batch,
    batch_key: IdentityKey,
    caller: IdentityKey,
    now: i64,
    r: Result<BatchFinalized, CoffeeError>,
) -> bool {
    match r {
        Ok(event) => {
            &&& creator_gate(pre, caller) is None
            &&& post == (Batch { status: BatchStatus::Completed, ..pre })
            &&& event == (BatchFinalized { batch: batch_key, timestamp: now })
        },
        Err(e) => {
            &&& creator_gate(pre, caller) == Some(e)
            &&& post == pre
        },
    }
}

/// Seals the batch on behalf of `caller`, who must be its creator; any other
/// caller — the current holder included — is rejected and the batch is left
/// untouched.
///
/// The batch's prior status is deliberately not consulted: finalizing an
/// already-completed batch succeeds again and owes the sink a fresh event.
/// Completion is terminal all the same, because the holder gate rejects every
/// later add-stage and transfer-custody.
pub fn finalize_batch_handler(
    batch: &mut Batch,
    batch_key: IdentityKey,
    caller: IdentityKey,
    now: i64,
) -> (r: Result<BatchFinalized, CoffeeError>)
    ensures
        finalize_batch_post(*old(batch), *final(batch), batch_key, caller, now, r),
{
    match require_creator(&*batch, &caller) {
        Err(e) => Err(e),
        Ok(()) => {
            batch.status = BatchStatus::Completed;
            Ok(BatchFinalized { batch: batch_key, timestamp: now })
        },
    }
}

} // verus!
