//! Tamper-evident provenance ledger for physical goods moving through a
//! custody chain.
//!
//! A [`state::Batch`] is the record for one unit of goods: it carries an
//! immutable creator, a mutable current holder, a status, and a counter of
//! processing stages appended so far. A [`state::Stage`] is one immutable
//! checkpoint in a batch's history. The operations in [`instructions`]
//! enforce the authorization rules of [`guard`]: only the current holder may
//! append a stage or transfer custody, only the creator may finalize, and a
//! finalized batch accepts no further stages or transfers.
//!
//! The hosting platform supplies storage addressing, caller authentication,
//! the clock, and the event sink; this crate receives authenticated caller
//! identities and timestamps as plain values and returns the events to emit.

pub mod constants;
pub mod errors;
pub mod events;
pub mod guard;
pub mod identity;
pub mod instructions;
pub mod state;

use vstd::prelude::*;

use crate::errors::CoffeeError;
use crate::events::{BatchCreated, BatchFinalized, CustodyTransferred, StageAdded};
use crate::identity::IdentityKey;
use crate::state::batch::Batch;
use crate::state::stage::Stage;

verus! {

/// Creates a new batch and designates its first holder. Returns the batch
/// record together with the creation event to emit.
pub fn create_batch(
    id: String,
    producer_name: String,
    batch_data_hash: String,
    initial_holder: IdentityKey,
    creator: IdentityKey,
    now: i64,
) -> (r: (Batch, BatchCreated))
    requires
        id@.len() <= constants::MAX_BATCH_ID_LEN,
        producer_name@.len() <= constants::MAX_PRODUCER_NAME_LEN,
        batch_data_hash@.len() <= constants::MAX_DATA_HASH_LEN,
    ensures
        r.0 == state::batch::created_batch(creator, id, producer_name, batch_data_hash, initial_holder, now),
        r.0.wf(),
        r.1 == (BatchCreated { batch_id: id, creator, producer_name, timestamp: now }),
{
    instructions::create_batch::create_batch_handler(
        id,
        producer_name,
        batch_data_hash,
        initial_holder,
        creator,
        now,
    )
}

/// Appends a new stage to a batch's history, on behalf of its current holder.
pub fn add_stage(
    batch: &mut Batch,
    batch_key: IdentityKey,
    stage_name: String,
    stage_data_hash: String,
    caller: IdentityKey,
    now: i64,
) -> (r: Result<(Stage, StageAdded), CoffeeError>)
    requires
        guard::holder_gate(*old(batch), caller) is None ==> old(batch).next_stage_index < u16::MAX,
        stage_data_hash@.len() <= constants::MAX_DATA_HASH_LEN,
    ensures
        instructions::add_stage::add_stage_post(*old(batch), *final(batch), batch_key, stage_name, stage_data_hash, caller, now, r),
{
    instructions::add_stage::add_stage_handler(batch, batch_key, stage_name, stage_data_hash, caller, now)
}

/// Hands custody of a batch to a new holder, on behalf of its current holder.
pub fn transfer_custody(
    batch: &mut Batch,
    batch_key: IdentityKey,
    new_holder: IdentityKey,
    caller: IdentityKey,
) -> (r: Result<CustodyTransferred, CoffeeError>)
    ensures
        instructions::transfer_custody::transfer_custody_post(*old(batch), *final(batch), batch_key, new_holder, caller, r),
{
    instructions::transfer_custody::transfer_custody_handler(batch, batch_key, new_holder, caller)
}

/// Seals a batch permanently, on behalf of its creator.
pub fn finalize_batch(
    batch: &mut Batch,
    batch_key: IdentityKey,
    caller: IdentityKey,
    now: i64,
) -> (r: Result<BatchFinalized, CoffeeError>)
    ensures
        instructions::finalize_batch::finalize_batch_post(*old(batch), *final(batch), batch_key, caller, now, r),
{
    instructions::finalize_batch::finalize_batch_handler(batch, batch_key, caller, now)
}

} // verus!
