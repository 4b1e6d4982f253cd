//! Fail-closed grid trading: the rules of a fixed-unit grid strategy, its
//! event-sourced ledger and the audits around it, each stated as a contract.
pub mod account;
pub mod account_laws;
pub mod arith;
pub mod audit;
pub mod audit_laws;
pub mod basic_laws;
pub mod clock;
pub mod config;
pub mod data;
pub mod decimal;
pub mod decision;
pub mod decision_laws;
pub mod digest;
pub mod domain;
pub mod event;
pub mod execution;
pub mod fill_laws;
pub mod gate;
pub mod gate_laws;
pub mod grid;
pub mod grid_laws;
pub mod input_laws;
pub mod journal;
pub mod json;
pub mod ledger;
pub mod live;
pub mod model;
pub mod notation;
pub mod orders;
pub mod paper_laws;
pub mod policy;
pub mod reference;
pub mod research;
pub mod rights;
pub mod shadow;
pub mod shadow_laws;
pub mod table;
pub mod text;
pub mod value;
