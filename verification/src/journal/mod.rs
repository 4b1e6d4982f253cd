//! The append-only journal of events, and what can be asked of it.
pub mod append;
pub mod inbox;
pub mod opportunities;
pub mod query;
pub mod rebuild;
pub mod schema;
pub mod snapshots;
pub mod laws;
