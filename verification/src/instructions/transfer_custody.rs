//! Handing custody of a batch to a new holder.

use vstd::prelude::*;

use crate::errors::CoffeeError;
use crate::events::CustodyTransferred;
use crate::guard::{holder_gate, require_holder};
use crate::identity::IdentityKey;
use crate::state::batch::Batch;

verus! {

/// Everything the transfer-custody operation promises. On success the holder
/// gate passed, the current holder becomes exactly the supplied new holder
/// while every other field of the batch is left untouched, and the event
/// names the old and the new holder. On rejection the batch is untouched and
/// the error is exactly what the holder gate prescribes.
pub open spec fn transfer_custody_post(
    pre: Batch,
    post: Batch,
    batch_key: IdentityKey,
    new_holder: IdentityKey,
    caller: IdentityKey,
    r: Result<CustodyTransferred, CoffeeError>,
) -> bool {
    match r {
        Ok(event) => {
            &&& holder_gate(pre, caller) is None
            &&& post == (Batch { current_holder: new_holder, ..pre })
            &&& event == (CustodyTransferred { batch: batch_key, from: pre.current_holder, to: new_holder })
        },
        Err(e) => {
            &&& holder_gate(pre, caller) == Some(e)
            &&& post == pre
        },
    }
}

/// Hands custody of the batch to `new_holder` on behalf of `caller`.
///
/// The batch must still be in progress and the caller must be its current
/// holder; otherwise the batch is left untouched and the rejection is
/// returned. Nothing requires the new holder to differ from the current one:
/// a self-transfer is permitted and leaves the record as it was.
pub fn transfer_custody_handler(
    batch: &mut Batch,
    batch_key: IdentityKey,
    new_holder: IdentityKey,
    caller: IdentityKey,
) -> (r: Result<CustodyTransferred, CoffeeError>)
    ensures
        transfer_custody_post(*old(batch), *final(batch), batch_key, new_holder, caller, r),
{
    match require_holder(&*batch, &caller) {
        Err(e) => Err(e),
        Ok(()) => {
            let old_holder = batch.current_holder;
            batch.current_holder = new_holder;
            Ok(CustodyTransferred { batch: batch_key, from: old_holder, to: new_holder })
        },
    }
}

} // verus!
