//! The records that the rules speak of, each with its mathematical content.
pub mod commands;
pub mod gates;
pub mod ledger;
pub mod market;
pub mod notices;
pub mod outcome;
pub mod paper;
pub mod remote;
pub mod research;
pub mod rights;
pub mod settings;
