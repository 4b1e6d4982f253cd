//! Market sources that are observed for research and never traded on.
pub mod analyze;
pub mod replay;
pub mod sina;
pub mod szse;
pub mod laws;
