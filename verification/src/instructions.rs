//! The four operations of the ledger. Each one runs the authorization rules
//! of [`crate::guard`], applies its state change atomically — either the full
//! mutation is visible or none of it — and returns the event the platform's
//! sink is owed.

pub mod add_stage;
pub mod create_batch;
pub mod finalize_batch;
pub mod transfer_custody;
