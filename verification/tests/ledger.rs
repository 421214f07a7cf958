//! End-to-end scenarios for the provenance ledger: creation, stage appends,
//! custody transfers, finalization, and every rejection path.

use coffee_traceability::create_batch;
use coffee_traceability::add_stage;
use coffee_traceability::transfer_custody;
use coffee_traceability::finalize_batch;
use coffee_traceability::errors::CoffeeError;
use coffee_traceability::identity::IdentityKey;
use coffee_traceability::state::batch::{Batch, BatchStatus};

fn creator() -> IdentityKey {
    IdentityKey::new(0xC0, 1, 2, 3)
}

fn holder1() -> IdentityKey {
    IdentityKey::new(0x41, 10, 20, 30)
}

fn holder2() -> IdentityKey {
    IdentityKey::new(0x42, 11, 21, 31)
}

fn batch_key() -> IdentityKey {
    IdentityKey::new(0xB0, 5, 6, 7)
}

fn fresh_batch() -> Batch {
    create_batch(
        "B1".to_string(),
        "Farm X".to_string(),
        "h1".to_string(),
        holder1(),
        creator(),
        1_700_000_000,
    )
    .0
}

#[test]
fn create_populates_every_field() {
    let (batch, event) = create_batch(
        "B1".to_string(),
        "Farm X".to_string(),
        "h1".to_string(),
        holder1(),
        creator(),
        1_700_000_000,
    );
    assert_eq!(batch.creator, creator());
    assert_eq!(batch.id, "B1");
    assert_eq!(batch.producer_name, "Farm X");
    assert_eq!(batch.created_at, 1_700_000_000);
    assert_eq!(batch.next_stage_index, 0);
    assert_eq!(batch.batch_data_hash, "h1");
    assert_eq!(batch.status, BatchStatus::InProgress);
    assert_eq!(batch.current_holder, holder1());

    assert_eq!(event.batch_id, "B1");
    assert_eq!(event.creator, creator());
    assert_eq!(event.producer_name, "Farm X");
    assert_eq!(event.timestamp, 1_700_000_000);
}

#[test]
fn create_accepts_empty_strings() {
    let (batch, _) = create_batch(
        String::new(),
        String::new(),
        String::new(),
        holder1(),
        creator(),
        0,
    );
    assert_eq!(batch.status, BatchStatus::InProgress);
    assert_eq!(batch.next_stage_index, 0);
}

#[test]
fn create_accepts_longest_inputs() {
    let id = "i".repeat(32);
    let name = "n".repeat(64);
    let hash = "f".repeat(64);
    let (batch, _) = create_batch(id.clone(), name.clone(), hash.clone(), holder1(), creator(), 7);
    assert_eq!(batch.id, id);
    assert_eq!(batch.producer_name, name);
    assert_eq!(batch.batch_data_hash, hash);
}

#[test]
fn add_stage_by_holder_succeeds() {
    let mut batch = fresh_batch();
    let r = add_stage(
        &mut batch,
        batch_key(),
        "Harvest".to_string(),
        "h2".to_string(),
        holder1(),
        1_700_000_100,
    );
    let (stage, event) = r.expect("holder's append must succeed");
    assert_eq!(stage.batch, batch_key());
    assert_eq!(stage.stage_name, "Harvest");
    assert_eq!(stage.timestamp, 1_700_000_100);
    assert_eq!(stage.actor, holder1());
    assert_eq!(stage.stage_data_hash, "h2");

    assert_eq!(event.batch, batch_key());
    assert_eq!(event.stage_index, 0);
    assert_eq!(event.stage_name, "Harvest");
    assert_eq!(event.actor, holder1());
    assert_eq!(event.stage_data_hash, "h2");

    assert_eq!(batch.next_stage_index, 1);
    assert_eq!(batch.status, BatchStatus::InProgress);
}

#[test]
fn stage_indices_count_up_gap_free() {
    let mut batch = fresh_batch();
    for expected in 0u16..5 {
        let (_, event) = add_stage(
            &mut batch,
            batch_key(),
            format!("Step {expected}"),
            "h2".to_string(),
            holder1(),
            1_700_000_100 + i64::from(expected),
        )
        .expect("holder's append must succeed");
        assert_eq!(event.stage_index, expected);
        assert_eq!(batch.next_stage_index, expected + 1);
    }
}

#[test]
fn add_stage_by_non_holder_fails_unauthorized() {
    let mut batch = fresh_batch();
    let r = add_stage(
        &mut batch,
        batch_key(),
        "Roast".to_string(),
        "h3".to_string(),
        holder2(),
        1_700_000_200,
    );
    assert!(matches!(r, Err(CoffeeError::UnauthorizedActor)));
    assert_eq!(batch.next_stage_index, 0);
    assert_eq!(batch.current_holder, holder1());
    assert_eq!(batch.status, BatchStatus::InProgress);
}

#[test]
fn add_stage_by_creator_fails_when_not_holder() {
    let mut batch = fresh_batch();
    let r = add_stage(
        &mut batch,
        batch_key(),
        "Roast".to_string(),
        "h3".to_string(),
        creator(),
        1_700_000_200,
    );
    assert!(matches!(r, Err(CoffeeError::UnauthorizedActor)));
    assert_eq!(batch.next_stage_index, 0);
}

#[test]
fn transfer_moves_custody_and_authority() {
    let mut batch = fresh_batch();
    let event = transfer_custody(&mut batch, batch_key(), holder2(), holder1())
        .expect("holder's transfer must succeed");
    assert_eq!(event.batch, batch_key());
    assert_eq!(event.from, holder1());
    assert_eq!(event.to, holder2());
    assert_eq!(batch.current_holder, holder2());

    // The old holder lost the authority to append...
    let r = add_stage(
        &mut batch,
        batch_key(),
        "Roast".to_string(),
        "h3".to_string(),
        holder1(),
        1_700_000_300,
    );
    assert!(matches!(r, Err(CoffeeError::UnauthorizedActor)));

    // ...and the new holder gained it.
    let r = add_stage(
        &mut batch,
        batch_key(),
        "Roast".to_string(),
        "h3".to_string(),
        holder2(),
        1_700_000_300,
    );
    assert!(r.is_ok());
    assert_eq!(batch.next_stage_index, 1);
}

#[test]
fn transfer_leaves_every_other_field_untouched() {
    let mut batch = fresh_batch();
    let before = batch.clone();
    transfer_custody(&mut batch, batch_key(), holder2(), holder1())
        .expect("holder's transfer must succeed");
    assert_eq!(batch.creator, before.creator);
    assert_eq!(batch.id, before.id);
    assert_eq!(batch.producer_name, before.producer_name);
    assert_eq!(batch.created_at, before.created_at);
    assert_eq!(batch.next_stage_index, before.next_stage_index);
    assert_eq!(batch.batch_data_hash, before.batch_data_hash);
    assert_eq!(batch.status, before.status);
    assert_eq!(batch.current_holder, holder2());
}

#[test]
fn self_transfer_is_permitted() {
    let mut batch = fresh_batch();
    let event = transfer_custody(&mut batch, batch_key(), holder1(), holder1())
        .expect("a self-transfer is permitted");
    assert_eq!(event.from, holder1());
    assert_eq!(event.to, holder1());
    assert_eq!(batch.current_holder, holder1());
}

#[test]
fn transfer_by_non_holder_fails_unauthorized() {
    let mut batch = fresh_batch();
    let r = transfer_custody(&mut batch, batch_key(), holder2(), creator());
    assert!(matches!(r, Err(CoffeeError::UnauthorizedActor)));
    assert_eq!(batch.current_holder, holder1());
}

#[test]
fn finalize_by_creator_seals_the_batch() {
    let mut batch = fresh_batch();
    transfer_custody(&mut batch, batch_key(), holder2(), holder1())
        .expect("holder's transfer must succeed");
    let event = finalize_batch(&mut batch, batch_key(), creator(), 1_700_000_400)
        .expect("creator's finalize must succeed");
    assert_eq!(event.batch, batch_key());
    assert_eq!(event.timestamp, 1_700_000_400);
    assert_eq!(batch.status, BatchStatus::Completed);

    // The current holder can no longer append.
    let r = add_stage(
        &mut batch,
        batch_key(),
        "Ship".to_string(),
        "h4".to_string(),
        holder2(),
        1_700_000_500,
    );
    assert!(matches!(r, Err(CoffeeError::BatchIsFinalized)));
    assert_eq!(batch.next_stage_index, 0);
}

#[test]
fn finalize_by_holder_fails_unauthorized() {
    let mut batch = fresh_batch();
    let r = finalize_batch(&mut batch, batch_key(), holder1(), 1_700_000_400);
    assert!(matches!(r, Err(CoffeeError::UnauthorizedActor)));
    assert_eq!(batch.status, BatchStatus::InProgress);
}

#[test]
fn finalized_batch_rejects_transfer_even_from_holder() {
    let mut batch = fresh_batch();
    finalize_batch(&mut batch, batch_key(), creator(), 1_700_000_400)
        .expect("creator's finalize must succeed");
    let r = transfer_custody(&mut batch, batch_key(), holder2(), holder1());
    assert!(matches!(r, Err(CoffeeError::BatchIsFinalized)));
    assert_eq!(batch.current_holder, holder1());
}

#[test]
fn cancelled_batch_rejects_appends_and_transfers() {
    // Cancelled is a reserved status with no producing operation, but the
    // holder gate rejects anything that is not in progress all the same.
    let mut batch = Batch {
        creator: creator(),
        id: "B1".to_string(),
        producer_name: "Farm X".to_string(),
        created_at: 1_700_000_000,
        next_stage_index: 0,
        batch_data_hash: "h1".to_string(),
        status: BatchStatus::Cancelled,
        current_holder: holder1(),
    };
    let r = add_stage(
        &mut batch,
        batch_key(),
        "Harvest".to_string(),
        "h2".to_string(),
        holder1(),
        1_700_000_100,
    );
    assert!(matches!(r, Err(CoffeeError::BatchIsFinalized)));
    let r = transfer_custody(&mut batch, batch_key(), holder2(), holder1());
    assert!(matches!(r, Err(CoffeeError::BatchIsFinalized)));
    assert_eq!(batch.status, BatchStatus::Cancelled);
    assert_eq!(batch.current_holder, holder1());
}

#[test]
fn finalize_twice_succeeds_twice() {
    // Finalize does not consult the prior status: re-finalizing an
    // already-completed batch passes the creator gate again.
    let mut batch = fresh_batch();
    finalize_batch(&mut batch, batch_key(), creator(), 1_700_000_400)
        .expect("creator's finalize must succeed");
    let event = finalize_batch(&mut batch, batch_key(), creator(), 1_700_000_401)
        .expect("re-finalizing is not rejected");
    assert_eq!(event.timestamp, 1_700_000_401);
    assert_eq!(batch.status, BatchStatus::Completed);
}

#[test]
fn identity_keys_compare_by_value() {
    assert_eq!(IdentityKey::new(1, 2, 3, 4), IdentityKey::new(1, 2, 3, 4));
    assert_ne!(IdentityKey::new(1, 2, 3, 4), IdentityKey::new(1, 2, 3, 5));
}
