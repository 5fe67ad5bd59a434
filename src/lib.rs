//! Ingestion of batches of searched candidates: each entry is parsed,
//! registered, scored, checked against its claim and stored at most once;
//! a batch either commits with one delta to its job's ledger or rolls back
//! as a whole. The storage and the scorer answer the state machines here
//! from outside.

pub mod batch;
pub mod clock;
pub mod codec;
pub mod entry;
pub mod executor;
pub mod ledger;
pub mod model;
pub mod query;
pub mod registry;
pub mod store;
