//! Events: what happened in a run, and the state that follows from it.
pub mod kinds;
pub mod payload;
pub mod levels;
pub mod tranches;
pub mod grants;
pub mod disposition;
pub mod intents;
pub mod fills;
pub mod lifecycle;
pub mod reduce;
pub mod laws;
pub mod numbers;
pub mod repeats;
pub mod order_laws;
pub mod level_laws;
pub mod tranche_laws;
pub mod right_laws;
pub mod intent_laws;
pub mod acceptance_laws;
