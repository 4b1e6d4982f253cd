//! The live worker: when it trades, what it trusts and what stops it.
pub mod bars;
pub mod identity;
pub mod operate;
pub mod recovery;
pub mod remote;
pub mod schedule;
pub mod watermark;
pub mod worker;
pub mod laws;
