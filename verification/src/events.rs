//! Notifications handed to the platform's event sink, one per successful
//! operation. The sink is write-only: nothing in the state machine reads an
//! event back. Each operation returns the event it owes, and the hosting code
//! emits it.

use vstd::prelude::*;

use crate::identity::IdentityKey;

verus! {

/// Emitted once when a batch is created.
#[derive(Clone, Debug)]
pub struct BatchCreated {
    pub batch_id: String,
    /// The brand owner that created the record.
    pub creator: IdentityKey,
    pub producer_name: String,
    pub timestamp: i64,
}

/// Emitted once when a stage is appended to a batch's history.
#[derive(Clone, Debug)]
pub struct StageAdded {
    pub batch: IdentityKey,
    /// The index the new stage was assigned: the batch's stage counter as it
    /// stood before the append.
    pub stage_index: u16,
    pub stage_name: String,
    /// The current holder that appended the stage.
    pub actor: IdentityKey,
    pub stage_data_hash: String,
}

/// Emitted once when custody of a batch changes hands.
#[derive(Clone, Copy, Debug)]
pub struct CustodyTransferred {
    pub batch: IdentityKey,
    /// The holder that gave custody up.
    pub from: IdentityKey,
    /// The new holder.
    pub to: IdentityKey,
}

/// Emitted once when a batch is finalized.
#[derive(Clone, Copy, Debug)]
pub struct BatchFinalized {
    pub batch: IdentityKey,
    pub timestamp: i64,
}

} // verus!
