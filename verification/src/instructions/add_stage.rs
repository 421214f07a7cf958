//! Appending one stage to a batch's history.

use vstd::prelude::*;

use crate::constants::MAX_DATA_HASH_LEN;
use crate::errors::CoffeeError;
use crate::events::StageAdded;
use crate::guard::{holder_gate, require_holder};
use crate::identity::IdentityKey;
use crate::state::batch::Batch;
use crate::state::stage::Stage;

verus! {

/// One successful append, seen on the batch record alone: the new stage was
/// assigned the pre-call value of the stage counter, and the counter moved up
/// by exactly one.
pub open spec fn stage_append_step(pre: Batch, post: Batch, assigned_index: u16) -> bool {
    &&& assigned_index == pre.next_stage_index
    &&& pre.next_stage_index < u16::MAX
    &&& post.next_stage_index == pre.next_stage_index + 1
}

/// Everything the add-stage operation promises, relating the batch before
/// (`pre`) and after (`post`) the call to its result. On success the holder
/// gate passed, the batch is unchanged but for its stage counter moving up by
/// one, and the returned stage and event carry the caller as actor and the
/// pre-call counter as the assigned index. On rejection the batch is
/// untouched and the error is exactly what the holder gate prescribes.
pub open spec fn add_stage_post(
    pre: Batch,
    post: Batch,
    batch_key: IdentityKey,
    stage_name: String,
    stage_data_hash: String,
    caller: IdentityKey,
    now: i64,
    r: Result<(Stage, StageAdded), CoffeeError>,
) -> bool {
    match r {
        Ok((stage, event)) => {
            &&& holder_gate(pre, caller) is None
            &&& stage_append_step(pre, post, event.stage_index)
            &&& post == (Batch { next_stage_index: (pre.next_stage_index + 1) as u16, ..pre })
            &&& stage == (Stage {
                batch: batch_key,
                stage_name,
                timestamp: now,
                actor: caller,
                stage_data_hash,
            })
            &&& stage.wf()
            &&& event == (StageAdded {
                batch: batch_key,
                stage_index: pre.next_stage_index,
                stage_name,
                actor: caller,
                stage_data_hash,
            })
        },
        Err(e) => {
            &&& holder_gate(pre, caller) == Some(e)
            &&& post == pre
        },
    }
}

/// Appends a stage to the batch's history on behalf of `caller`.
///
/// The batch must still be in progress and the caller must be its current
/// holder; otherwise the batch is left untouched and the rejection is
/// returned. On success the new stage is keyed by the pre-call stage counter,
/// records the caller as its actor and `now` as its timestamp, and the
/// counter is incremented by one. Overflow of the counter is excluded by
/// precondition: the platform treats it as a fatal abort, never as a
/// recoverable rejection.
pub fn add_stage_handler(
    batch: &mut Batch,
    batch_key: IdentityKey,
    stage_name: String,
    stage_data_hash: String,
    caller: IdentityKey,
    now: i64,
) -> (r: Result<(Stage, StageAdded), CoffeeError>)
    requires
        holder_gate(*old(batch), caller) is None ==> old(batch).next_stage_index < u16::MAX,
        stage_data_hash@.len() <= MAX_DATA_HASH_LEN,
    ensures
        add_stage_post(*old(batch), *final(batch), batch_key, stage_name, stage_data_hash, caller, now, r),
{
    match require_holder(&*batch, &caller) {
        Err(e) => Err(e),
        Ok(()) => {
            let stage = Stage {
                batch: batch_key,
                stage_name: stage_name.clone(),
                timestamp: now,
                actor: caller,
                stage_data_hash: stage_data_hash.clone(),
            };
            let assigned_index: u16 = batch.next_stage_index;
            batch.next_stage_index = assigned_index + 1;
            let event = StageAdded {
                batch: batch_key,
                stage_index: assigned_index,
                stage_name,
                actor: caller,
                stage_data_hash,
            };
            Ok((stage, event))
        },
    }
}

/// Law: successful appends assign consecutive indices — the history is
/// monotonic and gap-free per batch. If one append carries a batch from `b0`
/// to `b1` assigning index `i1`, and a second carries it from `b1` to `b2`
/// assigning `i2`, then `i2` is exactly `i1 + 1`.
pub proof fn lemma_stage_indices_consecutive(b0: Batch, b1: Batch, b2: Batch, i1: u16, i2: u16)
    requires
        stage_append_step(b0, b1, i1),
        stage_append_step(b1, b2, i2),
    ensures
        i2 == i1 + 1,
{
}

} // verus!
