//! The messages that the container takes and the answers that it gives.

use vstd::prelude::*;
use crate::ownership::{Action, OwnerRecord};

verus! {

/// Creates the container. Without a count it starts at the default.
#[derive(Clone, Copy, Debug, PartialEq, Eq, Structural)]
pub struct InstantiateMsg {
    pub count: Option<u64>,
}

/// A greeting.
#[derive(Debug, PartialEq, Eq)]
pub struct GreetResp {
    pub message: String,
}

/// What can be asked of the container without changing it.
#[derive(Clone, Copy, Debug, PartialEq, Eq, Structural)]
pub enum QueryMsg {
    /// The counter's value.
    GetCount {},
    /// The ownership record.
    Ownership {},
}

/// What can be done to the container.
#[derive(Debug, PartialEq, Eq)]
pub enum ExecuteMsg {
    /// Add one to the counter. Open to anyone.
    Increment {},
    /// Set the counter. Reserved for the owner.
    Reset { count: u64 },
    /// Propose, accept or renounce ownership.
    UpdateOwnership(Action),
}

/// The answer to `QueryMsg::GetCount`.
#[derive(Clone, Copy, Debug, PartialEq, Eq, Structural)]
pub struct CountResponse {
    pub count: u64,
}

/// Upgrades the container to the running code. It carries nothing.
#[derive(Clone, Copy, Debug, PartialEq, Eq, Structural)]
pub struct MigrateMsg {}

/// The answer to a query, one variant for each `QueryMsg`.
#[derive(Debug, PartialEq, Eq)]
pub enum QueryResponse {
    Count(CountResponse),
    Ownership(OwnerRecord),
}

} // verus!
