//! The two record types of the ledger: the mutable batch and its immutable
//! stages.

pub mod batch;
pub mod stage;
