//! What every call is handed: the container it works on, and what the
//! transport says about the block and the caller.

use vstd::prelude::*;
use crate::expiry::BlockInfo;
use crate::identity::Identity;
use crate::ownership::{ControllerView, OwnershipController};
use crate::state::{CounterView, StateContainer};
use crate::version::{GuardView, VersionGuard, VersionRecord, VersionRecordView};

verus! {

/// What the transport tells a call about its surroundings.
#[derive(Clone, Copy, Debug, PartialEq, Eq, Structural)]
pub struct Env {
    pub block: BlockInfo,
}

/// An amount of one denomination.
#[derive(Debug, PartialEq, Eq)]
pub struct Coin {
    pub denom: String,
    pub amount: u128,
}

/// Who sent a message, and the funds that came with it.
#[derive(Debug, PartialEq, Eq)]
pub struct MessageInfo {
    pub sender: Identity,
    pub funds: Vec<Coin>,
}

/// The container: the name and version of the code that runs, and the three
/// records that it keeps, each written by one component only.
#[derive(Debug, PartialEq, Eq)]
pub struct Container {
    /// The running code's name and version.
    pub code: VersionRecord,
    /// The version record, kept by the version guard.
    pub guard: VersionGuard,
    /// The ownership record, kept by the ownership controller.
    pub ownership: OwnershipController,
    /// The counter, kept by the state container.
    pub state: StateContainer,
}

/// The container over the views of its parts.
pub struct ContainerView {
    pub code: VersionRecordView,
    pub guard: GuardView,
    pub ownership: ControllerView,
    pub state: CounterView,
}

impl View for Container {
    type V = ContainerView;

    open spec fn view(&self) -> ContainerView {
        ContainerView {
            code: self.code@,
            guard: self.guard@,
            ownership: self.ownership@,
            state: self.state@,
        }
    }
}

impl Clone for Container {
    fn clone(&self) -> (copy: Self)
        ensures
            copy == *self,
    {
        Container {
            code: self.code.clone(),
            guard: self.guard.clone(),
            ownership: self.ownership.clone(),
            state: self.state,
        }
    }
}

impl Container {
    /// An empty container for code of the given name and version: nothing
    /// is stored in it yet.
    pub fn new(code: VersionRecord) -> (container: Container)
        ensures
            container@ == (ContainerView {
                code: code@,
                guard: None,
                ownership: None,
                state: None,
            }),
    {
        Container {
            code,
            guard: VersionGuard::new(),
            ownership: OwnershipController::new(),
            state: StateContainer::new(),
        }
    }
}

} // verus!
