//! The storage-sizing formulas: exact byte budgets the store must reserve
//! for each record type.

use coffee_traceability::state::batch::Batch;
use coffee_traceability::state::stage::Stage;

#[test]
fn batch_space_for_scenario_inputs() {
    // 8 + 32 + (4 + 2) + (4 + 6) + 8 + 2 + (4 + 64) + 2 + 32 for "B1" / "Farm X".
    assert_eq!(Batch::calculate_space(2, 6), 168);
}

#[test]
fn batch_space_for_empty_strings() {
    assert_eq!(Batch::calculate_space(0, 0), 160);
}

#[test]
fn batch_space_for_longest_strings() {
    assert_eq!(Batch::calculate_space(32, 64), 256);
}

#[test]
fn stage_space_for_scenario_input() {
    // 8 + 32 + (4 + 7) + 8 + 32 + (4 + 64) for "Harvest".
    assert_eq!(Stage::calculate_space(7), 159);
}

#[test]
fn stage_space_for_empty_name() {
    assert_eq!(Stage::calculate_space(0), 152);
}
