//! Creation of a new batch record.

use vstd::prelude::*;

use crate::constants::{MAX_BATCH_ID_LEN, MAX_DATA_HASH_LEN, MAX_PRODUCER_NAME_LEN};
use crate::events::BatchCreated;
use crate::identity::IdentityKey;
use crate::state::batch::{created_batch, Batch};

verus! {

/// Populates a fresh batch record from the given inputs: the creator becomes
/// its sole finalization authority, the supplied initial holder takes
/// custody, the status starts in progress and the stage counter at zero.
/// Returns the record together with the creation event to emit. There is no
/// rejection path: duplicate-id and space failures belong to the external
/// store.
///
/// `creator` is the authenticated identity of the brand owner making the
/// call, and `now` the platform clock's timestamp for it.
pub fn create_batch_handler(
    id: String,
    producer_name: String,
    batch_data_hash: String,
    initial_holder: IdentityKey,
    creator: IdentityKey,
    now: i64,
) -> (r: (Batch, BatchCreated))
    requires
        id@.len() <= MAX_BATCH_ID_LEN,
        producer_name@.len() <= MAX_PRODUCER_NAME_LEN,
        batch_data_hash@.len() <= MAX_DATA_HASH_LEN,
    ensures
        r.0 == created_batch(creator, id, producer_name, batch_data_hash, initial_holder, now),
        r.0.wf(),
        r.1 == (BatchCreated { batch_id: id, creator, producer_name, timestamp: now }),
{
    let event = BatchCreated {
        batch_id: id.clone(),
        creator,
        producer_name: producer_name.clone(),
        timestamp: now,
    };
    let batch = Batch {
        creator,
        id,
        producer_name,
        created_at: now,
        next_stage_index: 0,
        batch_data_hash,
        status: crate::state::batch::BatchStatus::InProgress,
        current_holder: initial_holder,
    };
    (batch, event)
}

} // verus!
