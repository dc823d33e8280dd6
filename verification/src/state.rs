//! The state container: the counter that the container holds, with one
//! operation that anyone may call and one that is reserved for the owner.

use vstd::prelude::*;
use crate::error::ContractError;
use crate::identity::Identity;
use crate::ownership::{owner_refusal, OwnershipController};
use crate::response::{decimal, decimal_string, AttributeView, Response};

verus! {

/// The value that a container starts with when none is supplied.
pub const DEFAULT_COUNT: u64 = 1;

/// The counter as it is stored.
#[derive(Clone, Copy, Debug, PartialEq, Eq, Structural)]
pub struct CounterState {
    pub value: u64,
}

/// The stored value: `None` until the counter is initialized.
pub type CounterView = Option<u64>;

/// The value that `initialize` stores.
pub open spec fn initial_count(supplied: Option<u64>) -> u64 {
    match supplied {
        Some(value) => value,
        None => DEFAULT_COUNT,
    }
}

/// Why an increment is refused, if it is.
pub open spec fn increment_refusal(state: CounterView) -> Option<ContractError> {
    match state {
        None => Some(ContractError::StorageFailure),
        Some(value) => if value == u64::MAX {
            Some(ContractError::Overflow)
        } else {
            None
        },
    }
}

/// What a counter operation reports: the action and the value it left.
pub open spec fn count_report(action: Seq<char>, count: u64) -> Seq<AttributeView> {
    seq![("action"@, action), ("new_count"@, decimal(count as nat))]
}

fn count_response(action: &str, count: u64) -> (response: Response)
    ensures
        response@ == count_report(action@, count),
{
    let value = decimal_string(count);
    let response = Response::new()
        .add_attribute("action", action)
        .add_attribute("new_count", value.as_str());
    assert(response@ =~= count_report(action@, count));
    response
}

/// The state container. It alone writes the counter.
#[derive(Clone, Copy, Debug, PartialEq, Eq, Structural)]
pub struct StateContainer {
    /// The stored counter; `None` until `initialize` has run.
    pub state: Option<CounterState>,
}

impl View for StateContainer {
    type V = CounterView;

    open spec fn view(&self) -> CounterView {
        match self.state {
            Some(counter) => Some(counter.value),
            None => None,
        }
    }
}

impl StateContainer {
    /// A container without a counter.
    pub fn new() -> (container: StateContainer)
        ensures
            container@ is None,
    {
        StateContainer { state: None }
    }

    /// Stores `initial_value`, or the default where none is supplied.
    pub fn initialize(&mut self, initial_value: Option<u64>)
        ensures
            final(self)@ == Some(initial_count(initial_value)),
    {
        let value = match initial_value {
            Some(value) => value,
            None => DEFAULT_COUNT,
        };
        self.state = Some(CounterState { value });
    }

    /// Adds one to the counter, whoever calls. Refused with `Overflow` at
    /// the top of the range, and then the counter stays as it is.
    pub fn increment(
        &mut self,
        _caller: &Identity,
    ) -> (result: Result<(u64, Response), ContractError>)
        ensures
            match result {
                Ok((new_value, response)) => increment_refusal(old(self)@) is None
                    && new_value == old(self)@->0 + 1
                    && final(self)@ == Some(new_value)
                    && response@ == count_report("increment"@, new_value),
                Err(error) => increment_refusal(old(self)@) == Some(error)
                    && final(self)@ == old(self)@,
            },
    {
        match self.state {
            None => Err(ContractError::StorageFailure),
            Some(counter) => match counter.value.checked_add(1) {
                None => Err(ContractError::Overflow),
                Some(new_value) => {
                    self.state = Some(CounterState { value: new_value });
                    Ok((new_value, count_response("increment", new_value)))
                },
            },
        }
    }

    /// Sets the counter to `new_value`, if `caller` is the owner that
    /// `ownership` records. Anyone else is refused as `require_owner`
    /// refuses them, and the counter stays as it is.
    pub fn reset(
        &mut self,
        ownership: &OwnershipController,
        caller: &Identity,
        new_value: u64,
    ) -> (result: Result<Response, ContractError>)
        ensures
            match result {
                Ok(response) => owner_refusal(ownership@, caller@) is None
                    && final(self)@ == Some(new_value)
                    && response@ == count_report("reset"@, new_value),
                Err(error) => owner_refusal(ownership@, caller@) == Some(error)
                    && final(self)@ == old(self)@,
            },
            // whoever is not the owner is turned away
            ownership@ is Some && ownership@->0.owner != Some(caller@)
                ==> result == Err::<Response, ContractError>(ContractError::Unauthorized)
                    && final(self)@ == old(self)@,
    {
        match ownership.require_owner(caller) {
            Err(error) => Err(error),
            Ok(()) => {
                self.state = Some(CounterState { value: new_value });
                Ok(count_response("reset", new_value))
            },
        }
    }

    /// The stored value. `StorageFailure` if there is none.
    pub fn query(&self) -> (result: Result<u64, ContractError>)
        ensures
            match result {
                Ok(value) => self@ == Some(value),
                Err(error) => error == ContractError::StorageFailure && self@ is None,
            },
    {
        match self.state {
            None => Err(ContractError::StorageFailure),
            Some(counter) => Ok(counter.value),
        }
    }
}

} // verus!
