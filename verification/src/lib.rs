//! An owner-gated counter container: a two-phase ownership handoff with
//! expiry, a version guard for schema upgrades, and the counter they protect.

pub mod commands;
pub mod context;
pub mod contract;
pub mod error;
pub mod expiry;
pub mod identity;
pub mod msg;
pub mod ownership;
pub mod queries;
pub mod response;
pub mod state;
pub mod version;

pub use crate::error::ContractError;
