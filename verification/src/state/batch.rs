//! The batch record: one mutable traceability case per unit of goods.

use vstd::prelude::*;

use crate::constants::{MAX_BATCH_ID_LEN, MAX_DATA_HASH_LEN, MAX_PRODUCER_NAME_LEN};
use crate::identity::IdentityKey;

verus! {

/// Where a batch stands in its lifecycle. The only transition any operation
/// performs is `InProgress` to `Completed`; `Cancelled` is a reserved variant
/// that no current operation produces.
#[derive(Clone, Copy, Debug, PartialEq, Eq, Structural)]
pub enum BatchStatus {
    InProgress,
    Completed,
    Cancelled,
}

/// The traceability record for one unit of goods.
///
/// `creator` and the descriptive fields are set once at creation and never
/// change; `next_stage_index`, `status` and `current_holder` are the mutable
/// state the operations act on.
#[derive(Clone, Debug)]
pub struct Batch {
    /// The brand owner that originated the record; sole authority to
    /// finalize. Immutable once set.
    pub creator: IdentityKey,
    /// Unique, readable id of the batch; its addressing key in the store.
    pub id: String,
    /// Name of the producer or farm. Descriptive only.
    pub producer_name: String,
    /// Timestamp of creation, set once.
    pub created_at: i64,
    /// Index the next appended stage will receive; equals the number of
    /// stages created so far.
    pub next_stage_index: u16,
    /// Opaque fingerprint of off-ledger batch metadata.
    pub batch_data_hash: String,
    /// Current lifecycle status.
    pub status: BatchStatus,
    /// The identity that currently holds the batch; sole authority to append
    /// stages and transfer custody while the batch is in progress.
    pub current_holder: IdentityKey,
}

impl Batch {
    /// The size bounds the store reserves for each string field.
    pub open spec fn wf(self) -> bool {
        &&& self.id@.len() <= MAX_BATCH_ID_LEN
        &&& self.producer_name@.len() <= MAX_PRODUCER_NAME_LEN
        &&& self.batch_data_hash@.len() <= MAX_DATA_HASH_LEN
    }

    /// Bytes the store must reserve for a batch record: platform framing,
    /// creator key, the two length-prefixed strings, creation timestamp,
    /// stage counter, length-prefixed fingerprint, status, holder key.
    pub fn calculate_space(id_len: usize, name_len: usize) -> (r: usize)
        requires
            id_len <= MAX_BATCH_ID_LEN,
            name_len <= MAX_PRODUCER_NAME_LEN,
        ensures
            r == 8 + 32 + (4 + id_len) + (4 + name_len) + 8 + 2 + (4 + MAX_DATA_HASH_LEN) + 2 + 32,
    {
        8 // platform record framing
        + 32 // creator
        + 4 + id_len // id
        + 4 + name_len // producer_name
        + 8 // created_at
        + 2 // next_stage_index
        + 4 + MAX_DATA_HASH_LEN // batch_data_hash
        + 1 + 1 // status
        + 32 // current_holder
    }
}

/// The batch that creation yields for the given inputs: all fields populated
/// from the arguments, status in progress, stage counter at zero.
pub open spec fn created_batch(
    creator: IdentityKey,
    id: String,
    producer_name: String,
    batch_data_hash: String,
    initial_holder: IdentityKey,
    now: i64,
) -> Batch {
    Batch {
        creator,
        id,
        producer_name,
        created_at: now,
        next_stage_index: 0,
        batch_data_hash,
        status: BatchStatus::InProgress,
        current_holder: initial_holder,
    }
}

} // verus!
