//! The queries: they read the container and never write it.

use vstd::prelude::*;
use crate::context::Container;
use crate::error::ContractError;
use crate::msg::CountResponse;
use crate::ownership::OwnerRecord;

verus! {

/// The counter's value. `StorageFailure` if the counter is missing.
pub fn query_count(deps: &Container) -> (result: Result<CountResponse, ContractError>)
    ensures
        match result {
            Ok(response) => deps@.state == Some(response.count),
            Err(error) => error == ContractError::StorageFailure && deps@.state is None,
        },
{
    match deps.state.query() {
        Ok(count) => Ok(CountResponse { count }),
        Err(error) => Err(error),
    }
}

/// The ownership record as it is stored, a pending proposal included even
/// when its deadline has passed. `StorageFailure` if the record is missing.
pub fn query_ownership(deps: &Container) -> (result: Result<OwnerRecord, ContractError>)
    ensures
        match result {
            Ok(record) => deps@.ownership == Some(record@),
            Err(error) => error == ContractError::StorageFailure && deps@.ownership is None,
        },
{
    deps.ownership.query()
}

} // verus!
