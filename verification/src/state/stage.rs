//! The stage record: one immutable checkpoint in a batch's history.

use vstd::prelude::*;

use crate::constants::MAX_DATA_HASH_LEN;
use crate::identity::IdentityKey;

verus! {

/// One step in the life cycle of a batch. Created once by the add-stage
/// operation and never mutated; its position in the history is the value of
/// the batch's stage counter at the moment of the append, which the store
/// uses as part of the record's address.
#[derive(Clone, Debug)]
pub struct Stage {
    /// Address of the batch record this stage belongs to.
    pub batch: IdentityKey,
    /// Name of the stage (for example "Harvest" or "Roast").
    pub stage_name: String,
    /// Timestamp at which the stage was recorded.
    pub timestamp: i64,
    /// The caller that held custody at the moment of the append.
    pub actor: IdentityKey,
    /// Opaque fingerprint of off-ledger stage evidence.
    pub stage_data_hash: String,
}

impl Stage {
    /// The size bound the store reserves for the fingerprint field.
    pub open spec fn wf(self) -> bool {
        self.stage_data_hash@.len() <= MAX_DATA_HASH_LEN
    }

    /// Bytes the store must reserve for a stage record: platform framing,
    /// batch key, length-prefixed stage name, timestamp, actor key,
    /// length-prefixed fingerprint.
    pub fn calculate_space(name_len: usize) -> (r: usize)
        requires
            name_len <= usize::MAX - 152,
        ensures
            r == 8 + 32 + (4 + name_len) + 8 + 32 + (4 + MAX_DATA_HASH_LEN),
    {
        8 // platform record framing
        + 32 // batch
        + 4 + name_len // stage_name
        + 8 // timestamp
        + 32 // actor
        + 4 + MAX_DATA_HASH_LEN // stage_data_hash
    }
}

} // verus!
