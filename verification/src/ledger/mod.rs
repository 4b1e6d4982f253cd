//! The only way into the journal: what is appended follows from the state, and
//! the state follows from what is appended.
pub mod batch;
pub mod evidence;
pub mod kinship;
pub mod laws;
pub mod writer;
pub mod evidence_laws;
pub mod batch_laws;
pub mod writer_laws;
