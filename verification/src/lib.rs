//! Governance core of a small decentralised organisation: a voter registry,
//! a proposal store with tombstoned slots, and the voting engine over both.

pub mod dao;
pub mod error;
pub mod identity;
pub mod laws;
pub mod model;
pub mod proposal;
pub mod registry;
pub mod store;
