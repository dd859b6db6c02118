//! A DNS failover controller: it ranks candidate edge addresses by measured
//! download speed, picks the fastest one or a configured fallback, publishes
//! the choice to an A record and tells the operator when the kind of address
//! being served changes.
//!
//! The library holds the decisions; the program around it performs the work
//! that each decision asks for.

pub mod control;
pub mod dns;
pub mod failure;
pub mod gate;
pub mod json;
pub mod laws;
pub mod measurement;
pub mod notify;
pub mod selector;
pub mod settings;
pub mod text;
pub mod throughput;
pub mod tool;
