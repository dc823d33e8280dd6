//! The commands on the counter, as the dispatcher runs them on a container.

use vstd::prelude::*;
use crate::context::{Container, ContainerView, MessageInfo};
use crate::error::ContractError;
use crate::ownership::owner_refusal;
use crate::response::Response;
use crate::state::{count_report, increment_refusal};

verus! {

/// Increments the counter by 1. Anyone may call: only a missing counter or
/// the top of its range refuses. Nothing but the counter is written.
pub fn try_increment(
    deps: &mut Container,
    info: &MessageInfo,
) -> (result: Result<Response, ContractError>)
    ensures
        match result {
            Ok(response) => increment_refusal(old(deps)@.state) is None
                && final(deps)@ == (ContainerView {
                    state: Some((old(deps)@.state->0 + 1) as u64),
                    ..old(deps)@
                })
                && response@ == count_report("increment"@, (old(deps)@.state->0 + 1) as u64),
            Err(error) => increment_refusal(old(deps)@.state) == Some(error)
                && final(deps)@ == old(deps)@,
        },
        // short of the top of the range, whoever calls succeeds
        old(deps)@.state is Some && old(deps)@.state->0 < u64::MAX ==> result is Ok,
        // and the ownership record is left as it was
        final(deps)@.ownership == old(deps)@.ownership,
{
    match deps.state.increment(&info.sender) {
        Ok((_, response)) => Ok(response),
        Err(error) => Err(error),
    }
}

/// Resets the counter to `count`, for the owner only. Nothing but the
/// counter is written.
pub fn try_reset(
    deps: &mut Container,
    info: &MessageInfo,
    count: u64,
) -> (result: Result<Response, ContractError>)
    ensures
        match result {
            Ok(response) => owner_refusal(old(deps)@.ownership, info.sender@) is None
                && final(deps)@ == (ContainerView { state: Some(count), ..old(deps)@ })
                && response@ == count_report("reset"@, count),
            Err(error) => owner_refusal(old(deps)@.ownership, info.sender@) == Some(error)
                && final(deps)@ == old(deps)@,
        },
        // whoever is not the owner is turned away, and the counter stays
        old(deps)@.ownership is Some && old(deps)@.ownership->0.owner != Some(info.sender@)
            ==> result == Err::<Response, ContractError>(ContractError::Unauthorized)
                && final(deps)@.state == old(deps)@.state,
{
    deps.state.reset(&deps.ownership, &info.sender, count)
}

} // verus!
