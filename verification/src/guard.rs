//! The authorization rules consulted by every mutating operation.
//!
//! Custody lives entirely on the batch record, so each rule is a stateless
//! comparison of the caller's authenticated identity against the stored
//! authority field the operation requires: the current holder for add-stage
//! and transfer-custody, the creator for finalize.

use vstd::prelude::*;

use crate::errors::CoffeeError;
use crate::identity::IdentityKey;
use crate::state::batch::{Batch, BatchStatus};

verus! {

/// The rejection, if any, for the holder-guarded operations (add-stage and
/// transfer-custody): the batch must still be in progress, and the caller
/// must be its current holder, checked in that order.
pub open spec fn holder_gate(batch: Batch, caller: IdentityKey) -> Option<CoffeeError> {
    if batch.status != BatchStatus::InProgress {
        Some(CoffeeError::BatchIsFinalized)
    } else if caller != batch.current_holder {
        Some(CoffeeError::UnauthorizedActor)
    } else {
        None
    }
}

/// The rejection, if any, for finalize: the caller must be the batch's
/// creator. The batch's status is not consulted: finalizing an
/// already-completed batch is not rejected.
pub open spec fn creator_gate(batch: Batch, caller: IdentityKey) -> Option<CoffeeError> {
    if caller != batch.creator {
        Some(CoffeeError::UnauthorizedActor)
    } else {
        None
    }
}

/// Checks the holder gate: passes exactly when the batch is in progress and
/// the caller is its current holder, and otherwise returns the rejection the
/// gate prescribes.
pub fn require_holder(batch: &Batch, caller: &IdentityKey) -> (r: Result<(), CoffeeError>)
    ensures
        r matches Err(e) ==> holder_gate(*batch, *caller) == Some(e),
        r is Ok <==> holder_gate(*batch, *caller) is None,
{
    if batch.status != BatchStatus::InProgress {
        Err(CoffeeError::BatchIsFinalized)
    } else if *caller != batch.current_holder {
        Err(CoffeeError::UnauthorizedActor)
    } else {
        Ok(())
    }
}

/// Checks the creator gate: passes exactly when the caller is the batch's
/// creator, whatever the batch's status.
pub fn require_creator(batch: &Batch, caller: &IdentityKey) -> (r: Result<(), CoffeeError>)
    ensures
        r matches Err(e) ==> creator_gate(*batch, *caller) == Some(e),
        r is Ok <==> creator_gate(*batch, *caller) is None,
{
    if *caller != batch.creator {
        Err(CoffeeError::UnauthorizedActor)
    } else {
        Ok(())
    }
}

/// Law: a batch that is not in progress rejects every holder-guarded
/// operation with `BatchIsFinalized`, regardless of the caller's identity.
pub proof fn lemma_finalized_batch_rejects(batch: Batch, caller: IdentityKey)
    requires
        batch.status != BatchStatus::InProgress,
    ensures
        holder_gate(batch, caller) == Some(CoffeeError::BatchIsFinalized),
{
}

/// Law: while a batch is in progress, a caller other than the current holder
/// is rejected with `UnauthorizedActor` by every holder-guarded operation —
/// even a caller that is the batch's original creator.
pub proof fn lemma_non_holder_rejected(batch: Batch, caller: IdentityKey)
    requires
        batch.status == BatchStatus::InProgress,
        caller != batch.current_holder,
    ensures
        holder_gate(batch, caller) == Some(CoffeeError::UnauthorizedActor),
{
}

/// Law: a caller other than the creator cannot finalize and is rejected with
/// `UnauthorizedActor` — even a caller that is the batch's current holder.
pub proof fn lemma_non_creator_cannot_finalize(batch: Batch, caller: IdentityKey)
    requires
        caller != batch.creator,
    ensures
        creator_gate(batch, caller) == Some(CoffeeError::UnauthorizedActor),
{
}

} // verus!
