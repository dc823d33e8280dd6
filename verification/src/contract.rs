//! The dispatcher: the four entry points of the container. Each takes the
//! container and a message, hands the work to the component that owns the
//! record concerned, and returns that component's answer.

use vstd::prelude::*;
use crate::commands;
use crate::context::{Container, ContainerView, Env, MessageInfo};
use crate::error::ContractError;
use crate::expiry::BlockInfo;
use crate::msg::{ExecuteMsg, InstantiateMsg, MigrateMsg, QueryMsg, QueryResponse};
use crate::ownership::{
    after_step, owner_refusal, ownership_report, step_refusal, Action, OwnerRecordView,
};
use crate::queries;
use crate::response::{AttributeView, Response};
use crate::state::{count_report, increment_refusal, initial_count};
use crate::version::upgrade_refusal;

verus! {

/// The error of `cw_utils::nonpayable`, carried through without a look
/// inside.
#[verifier::external_type_specification]
#[verifier::external_body]
pub struct ExPaymentError(cw_utils::PaymentError);

/// Calls `cw_utils::nonpayable` on the sender and funds of `info`. Trusted:
/// it returns `Ok` when no coin came with the message and an error when any
/// did.
#[verifier::external_body]
fn nonpayable(info: &MessageInfo) -> (result: Result<(), cw_utils::PaymentError>)
    ensures
        result is Ok <==> info.funds@.len() == 0,
{
    cw_utils::nonpayable(
        &cosmwasm_std::MessageInfo {
            sender: cosmwasm_std::Addr::unchecked(info.sender.as_str()),
            funds: info.funds.iter().map(
                |coin| cosmwasm_std::Coin::new(coin.amount, coin.denom.as_str()),
            ).collect(),
        },
    )
}

/// Why `msg` is refused when `sender` sends it in the block `now`, with or
/// without funds, if it is.
pub open spec fn execute_refusal(
    container: ContainerView,
    now: BlockInfo,
    sender: Seq<char>,
    funded: bool,
    msg: ExecuteMsg,
) -> Option<ContractError> {
    match msg {
        ExecuteMsg::Increment {} => increment_refusal(container.state),
        ExecuteMsg::Reset { .. } => owner_refusal(container.ownership, sender),
        ExecuteMsg::UpdateOwnership(action) => if funded {
            Some(ContractError::NonPayable)
        } else {
            step_refusal(container.ownership, action.taken_by(sender), now)
        },
    }
}

/// The container that `msg` leaves. Each message writes one record at most:
/// the counter, or the ownership record.
pub open spec fn after_execute(
    container: ContainerView,
    now: BlockInfo,
    sender: Seq<char>,
    funded: bool,
    msg: ExecuteMsg,
) -> ContainerView {
    match msg {
        ExecuteMsg::Increment {} => if increment_refusal(container.state) is None {
            ContainerView { state: Some((container.state->0 + 1) as u64), ..container }
        } else {
            container
        },
        ExecuteMsg::Reset { count } => if owner_refusal(container.ownership, sender) is None {
            ContainerView { state: Some(count), ..container }
        } else {
            container
        },
        ExecuteMsg::UpdateOwnership(action) => if funded {
            container
        } else {
            ContainerView {
                ownership: after_step(container.ownership, action.taken_by(sender), now),
                ..container
            }
        },
    }
}

/// What `msg` reports when it succeeds and leaves `container`.
pub open spec fn execute_report(container: ContainerView, msg: ExecuteMsg) -> Seq<AttributeView> {
    match msg {
        ExecuteMsg::Increment {} => count_report("increment"@, container.state->0),
        ExecuteMsg::Reset { count } => count_report("reset"@, count),
        ExecuteMsg::UpdateOwnership(_) => ownership_report(container.ownership->0),
    }
}

/// Why the running code is refused as an upgrade of `container`, if it is.
pub open spec fn migrate_refusal(container: ContainerView) -> Option<ContractError> {
    upgrade_refusal(container.guard, container.code.name, container.code.version)
}

/// Creates the container's records: the version record from the running
/// code, the ownership record with the sender as owner, and the counter.
/// A container that has an owner record already is left as it is.
pub fn instantiate(
    deps: &mut Container,
    _env: Env,
    info: MessageInfo,
    msg: InstantiateMsg,
) -> (result: Result<Response, ContractError>)
    ensures
        match result {
            Ok(response) => old(deps)@.ownership is None
                && final(deps)@ == (ContainerView {
                    code: old(deps)@.code,
                    guard: Some(old(deps)@.code),
                    ownership: Some(OwnerRecordView::settled(Some(info.sender@))),
                    state: Some(initial_count(msg.count)),
                })
                && response@ == seq![("action"@, "instantiate"@), ("owner"@, info.sender@)],
            Err(error) => error == ContractError::AlreadyInitialized
                && old(deps)@.ownership is Some
                && final(deps)@ == old(deps)@,
        },
{
    if deps.ownership.record.is_some() {
        return Err(ContractError::AlreadyInitialized);
    }
    deps.guard.record_version(deps.code.name.as_str(), deps.code.version);
    match deps.ownership.initialize(info.sender.clone()) {
        Err(error) => {
            return Err(error);
        },
        Ok(()) => {},
    }
    deps.state.initialize(msg.count);
    let response = Response::new()
        .add_attribute("action", "instantiate")
        .add_attribute("owner", info.sender.as_str());
    assert(response@ =~= seq![("action"@, "instantiate"@), ("owner"@, info.sender@)]);
    Ok(response)
}

/// Runs `msg` for its sender: counter messages go to the state container,
/// ownership messages, which accept no funds, to the ownership controller.
pub fn execute(
    deps: &mut Container,
    env: Env,
    info: MessageInfo,
    msg: ExecuteMsg,
) -> (result: Result<Response, ContractError>)
    ensures
        final(deps)@ == after_execute(old(deps)@, env.block, info.sender@, info.funds@.len() > 0, msg),
        match result {
            Ok(response) => {
                &&& execute_refusal(old(deps)@, env.block, info.sender@, info.funds@.len() > 0, msg)
                    is None
                &&& response@ == execute_report(final(deps)@, msg)
            },
            Err(error) => {
                execute_refusal(old(deps)@, env.block, info.sender@, info.funds@.len() > 0, msg)
                    == Some(error)
            },
        },
{
    match msg {
        ExecuteMsg::UpdateOwnership(action) => {
            match nonpayable(&info) {
                Err(_) => {
                    return Err(ContractError::NonPayable);
                },
                Ok(()) => {},
            }
            deps.ownership.update_ownership(&env.block, &info.sender, action)
        },
        ExecuteMsg::Reset { count } => commands::try_reset(deps, &info, count),
        ExecuteMsg::Increment {} => commands::try_increment(deps, &info),
    }
}

/// Answers `msg` from the container as it stands.
pub fn query(
    deps: &Container,
    _env: Env,
    msg: QueryMsg,
) -> (result: Result<QueryResponse, ContractError>)
    ensures
        match msg {
            QueryMsg::GetCount {} => match result {
                Ok(QueryResponse::Count(response)) => deps@.state == Some(response.count),
                Ok(QueryResponse::Ownership(_)) => false,
                Err(error) => error == ContractError::StorageFailure && deps@.state is None,
            },
            QueryMsg::Ownership {} => match result {
                Ok(QueryResponse::Ownership(record)) => deps@.ownership == Some(record@),
                Ok(QueryResponse::Count(_)) => false,
                Err(error) => error == ContractError::StorageFailure && deps@.ownership is None,
            },
        },
{
    match msg {
        QueryMsg::Ownership {} => match queries::query_ownership(deps) {
            Ok(record) => Ok(QueryResponse::Ownership(record)),
            Err(error) => Err(error),
        },
        QueryMsg::GetCount {} => match queries::query_count(deps) {
            Ok(response) => Ok(QueryResponse::Count(response)),
            Err(error) => Err(error),
        },
    }
}

/// Upgrades the container to the running code, if the version guard lets
/// it. A refused migration changes nothing.
pub fn migrate(
    deps: &mut Container,
    _env: Env,
    _msg: MigrateMsg,
) -> (result: Result<Response, ContractError>)
    ensures
        match result {
            Ok(response) => {
                &&& migrate_refusal(old(deps)@) is None
                &&& final(deps)@ == (ContainerView { guard: Some(old(deps)@.code), ..old(deps)@ })
                &&& response@ == Seq::<AttributeView>::empty()
            },
            Err(error) => migrate_refusal(old(deps)@) == Some(error) && final(deps)@ == old(deps)@,
        },
        // a container of another name is never migrated
        old(deps)@.guard is Some && old(deps)@.guard->0.name != old(deps)@.code.name
            ==> result == Err::<Response, ContractError>(ContractError::NameMismatch)
                && final(deps)@.guard == old(deps)@.guard,
{
    match deps.guard.check_and_upgrade(deps.code.name.as_str(), deps.code.version) {
        Err(error) => Err(error),
        Ok(()) => Ok(Response::new()),
    }
}

/// Only the owner's own renouncement, sent without funds, leaves a container
/// without an owner.
pub proof fn lemma_execute_keeps_owner(
    container: ContainerView,
    now: BlockInfo,
    sender: Seq<char>,
    funded: bool,
    msg: ExecuteMsg,
)
    requires
        container.ownership is Some,
        container.ownership->0.owner is Some,
    ensures
        after_execute(container, now, sender, funded, msg).ownership is Some,
        after_execute(container, now, sender, funded, msg).ownership->0.owner is None ==> !funded
            && msg == ExecuteMsg::UpdateOwnership(Action::RenounceOwnership)
            && container.ownership->0.owner == Some(sender),
{
}

/// A message writes one record at most: an ownership message the ownership
/// record, a counter message the counter. None writes the version record.
pub proof fn lemma_execute_writes_one_record(
    container: ContainerView,
    now: BlockInfo,
    sender: Seq<char>,
    funded: bool,
    msg: ExecuteMsg,
)
    ensures
        after_execute(container, now, sender, funded, msg).code == container.code,
        after_execute(container, now, sender, funded, msg).guard == container.guard,
        msg is UpdateOwnership ==> after_execute(container, now, sender, funded, msg).state
            == container.state,
        !(msg is UpdateOwnership) ==> after_execute(container, now, sender, funded, msg).ownership
            == container.ownership,
{
}

/// A refused message changes nothing, with one exception: an acceptance
/// that comes too late drops the lapsed proposal.
pub proof fn lemma_refused_execute_changes_nothing(
    container: ContainerView,
    now: BlockInfo,
    sender: Seq<char>,
    funded: bool,
    msg: ExecuteMsg,
)
    requires
        execute_refusal(container, now, sender, funded, msg) is Some,
        execute_refusal(container, now, sender, funded, msg) != Some(ContractError::TransferExpired),
    ensures
        after_execute(container, now, sender, funded, msg) == container,
{
}

} // verus!
