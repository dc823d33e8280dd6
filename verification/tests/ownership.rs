use dapp_template::error::ContractError;
use dapp_template::expiry::{BlockInfo, Expiry, Timestamp};
use dapp_template::identity::Identity;
use dapp_template::ownership::{Action, OwnerRecord, OwnershipController};
use dapp_template::response::{Attribute, Response};

fn at_height(height: u64) -> BlockInfo {
    BlockInfo { height, time: Timestamp { nanos: 1_000_000_000 } }
}

fn at_time(nanos: u64) -> BlockInfo {
    BlockInfo { height: 5, time: Timestamp { nanos } }
}

fn owned_by(owner: &str) -> OwnershipController {
    let mut controller = OwnershipController::new();
    controller.initialize(Identity::new(owner)).unwrap();
    controller
}

fn record(owner: Option<&str>, pending: Option<&str>, expiry: Option<Expiry>) -> OwnerRecord {
    OwnerRecord {
        owner: owner.map(Identity::new),
        pending_owner: pending.map(Identity::new),
        pending_expiry: expiry,
    }
}

fn report(owner: &str, pending: &str, expiry: &str) -> Response {
    Response {
        attributes: vec![
            Attribute::new("action", "update_ownership"),
            Attribute::new("owner", owner),
            Attribute::new("pending_owner", pending),
            Attribute::new("pending_expiry", expiry),
        ],
    }
}

#[test]
fn new_controller_has_no_record() {
    let controller = OwnershipController::new();
    assert_eq!(controller.record, None);
    assert_eq!(controller.query(), Err(ContractError::StorageFailure));
}

#[test]
fn initialize_sets_owner_and_nothing_pending() {
    let mut controller = OwnershipController::new();
    assert_eq!(controller.initialize(Identity::new("alice")), Ok(()));
    assert_eq!(controller.query(), Ok(record(Some("alice"), None, None)));
}

#[test]
fn initialize_twice_is_refused() {
    let mut controller = owned_by("alice");
    assert_eq!(
        controller.initialize(Identity::new("bob")),
        Err(ContractError::AlreadyInitialized)
    );
    assert_eq!(controller.query(), Ok(record(Some("alice"), None, None)));
}

#[test]
fn require_owner_lets_only_the_owner_through() {
    let controller = owned_by("alice");
    assert_eq!(controller.require_owner(&Identity::new("alice")), Ok(()));
    assert_eq!(
        controller.require_owner(&Identity::new("bob")),
        Err(ContractError::Unauthorized)
    );
    assert_eq!(
        controller.require_owner(&Identity::new("")),
        Err(ContractError::Unauthorized)
    );
}

#[test]
fn operations_without_a_record_fail_on_storage() {
    let alice = Identity::new("alice");
    let now = at_height(1);
    let mut controller = OwnershipController::new();
    assert_eq!(controller.require_owner(&alice), Err(ContractError::StorageFailure));
    assert_eq!(
        controller.propose_transfer(&alice, Identity::new("bob"), None, &now),
        Err(ContractError::StorageFailure)
    );
    assert_eq!(controller.accept_transfer(&alice, &now), Err(ContractError::StorageFailure));
    assert_eq!(controller.renounce(&alice), Err(ContractError::StorageFailure));
    assert_eq!(controller.record, None);
}

#[test]
fn proposal_is_stored_and_reported() {
    let mut controller = owned_by("alice");
    let result = controller.propose_transfer(
        &Identity::new("alice"),
        Identity::new("bob"),
        Some(Expiry::AtHeight(20)),
        &at_height(10),
    );
    assert_eq!(result, Ok(report("alice", "bob", "expiration height: 20")));
    assert_eq!(
        controller.query(),
        Ok(record(Some("alice"), Some("bob"), Some(Expiry::AtHeight(20))))
    );
}

#[test]
fn proposal_without_deadline_is_reported_as_none() {
    let mut controller = owned_by("alice");
    let result =
        controller.propose_transfer(&Identity::new("alice"), Identity::new("bob"), None, &at_height(10));
    assert_eq!(result, Ok(report("alice", "bob", "none")));
    assert_eq!(controller.query(), Ok(record(Some("alice"), Some("bob"), None)));
}

#[test]
fn proposal_with_time_deadline_is_reported_in_seconds() {
    let mut controller = owned_by("alice");
    let result = controller.propose_transfer(
        &Identity::new("alice"),
        Identity::new("bob"),
        Some(Expiry::AtTime(Timestamp { nanos: 3_000_000_202 })),
        &at_time(1_000_000_000),
    );
    assert_eq!(result, Ok(report("alice", "bob", "expiration time: 3.000000202")));
}

#[test]
fn proposal_by_another_caller_is_unauthorized() {
    let mut controller = owned_by("alice");
    let result =
        controller.propose_transfer(&Identity::new("bob"), Identity::new("bob"), None, &at_height(10));
    assert_eq!(result, Err(ContractError::Unauthorized));
    assert_eq!(controller.query(), Ok(record(Some("alice"), None, None)));
}

#[test]
fn proposal_with_deadline_in_the_past_is_never_stored() {
    let mut controller = owned_by("alice");
    let result = controller.propose_transfer(
        &Identity::new("alice"),
        Identity::new("bob"),
        Some(Expiry::AtHeight(9)),
        &at_height(10),
    );
    assert_eq!(result, Err(ContractError::InvalidExpiry));
    assert_eq!(controller.query(), Ok(record(Some("alice"), None, None)));
}

#[test]
fn proposal_with_deadline_in_this_block_is_invalid() {
    let mut controller = owned_by("alice");
    let alice = Identity::new("alice");
    let by_height =
        controller.propose_transfer(&alice, Identity::new("bob"), Some(Expiry::AtHeight(10)), &at_height(10));
    assert_eq!(by_height, Err(ContractError::InvalidExpiry));
    let by_time = controller.propose_transfer(
        &alice,
        Identity::new("bob"),
        Some(Expiry::AtTime(Timestamp { nanos: 77 })),
        &at_time(77),
    );
    assert_eq!(by_time, Err(ContractError::InvalidExpiry));
    assert_eq!(controller.query(), Ok(record(Some("alice"), None, None)));
}

#[test]
fn proposal_with_deadline_in_the_next_block_is_valid() {
    let mut controller = owned_by("alice");
    let alice = Identity::new("alice");
    let by_height =
        controller.propose_transfer(&alice, Identity::new("bob"), Some(Expiry::AtHeight(11)), &at_height(10));
    assert!(by_height.is_ok());
    let by_time = controller.propose_transfer(
        &alice,
        Identity::new("bob"),
        Some(Expiry::AtTime(Timestamp { nanos: 78 })),
        &at_time(77),
    );
    assert!(by_time.is_ok());
}

#[test]
fn invalid_proposal_keeps_the_earlier_one() {
    let mut controller = owned_by("alice");
    let alice = Identity::new("alice");
    controller
        .propose_transfer(&alice, Identity::new("bob"), Some(Expiry::AtHeight(20)), &at_height(10))
        .unwrap();
    let result =
        controller.propose_transfer(&alice, Identity::new("carol"), Some(Expiry::AtHeight(5)), &at_height(10));
    assert_eq!(result, Err(ContractError::InvalidExpiry));
    assert_eq!(
        controller.query(),
        Ok(record(Some("alice"), Some("bob"), Some(Expiry::AtHeight(20))))
    );
}

#[test]
fn last_proposal_wins() {
    let mut controller = owned_by("alice");
    let alice = Identity::new("alice");
    controller
        .propose_transfer(&alice, Identity::new("bob"), Some(Expiry::AtHeight(20)), &at_height(10))
        .unwrap();
    controller.propose_transfer(&alice, Identity::new("carol"), None, &at_height(11)).unwrap();
    assert_eq!(controller.query(), Ok(record(Some("alice"), Some("carol"), None)));
    assert_eq!(
        controller.accept_transfer(&Identity::new("bob"), &at_height(12)),
        Err(ContractError::Unauthorized)
    );
}

#[test]
fn accept_without_proposal_is_refused() {
    let mut controller = owned_by("alice");
    assert_eq!(
        controller.accept_transfer(&Identity::new("alice"), &at_height(10)),
        Err(ContractError::NoPendingTransfer)
    );
    assert_eq!(controller.query(), Ok(record(Some("alice"), None, None)));
}

#[test]
fn accept_by_the_current_owner_is_unauthorized() {
    let mut controller = owned_by("alice");
    let alice = Identity::new("alice");
    controller.propose_transfer(&alice, Identity::new("bob"), None, &at_height(10)).unwrap();
    assert_eq!(
        controller.accept_transfer(&alice, &at_height(11)),
        Err(ContractError::Unauthorized)
    );
    assert_eq!(
        controller.accept_transfer(&Identity::new("carol"), &at_height(11)),
        Err(ContractError::Unauthorized)
    );
    assert_eq!(controller.query(), Ok(record(Some("alice"), Some("bob"), None)));
}

#[test]
fn accept_before_the_deadline_hands_over() {
    let mut controller = owned_by("alice");
    controller
        .propose_transfer(
            &Identity::new("alice"),
            Identity::new("bob"),
            Some(Expiry::AtHeight(20)),
            &at_height(10),
        )
        .unwrap();
    let result = controller.accept_transfer(&Identity::new("bob"), &at_height(19));
    assert_eq!(result, Ok(report("bob", "none", "none")));
    assert_eq!(controller.query(), Ok(record(Some("bob"), None, None)));
    assert_eq!(controller.require_owner(&Identity::new("bob")), Ok(()));
    assert_eq!(
        controller.require_owner(&Identity::new("alice")),
        Err(ContractError::Unauthorized)
    );
}

#[test]
fn accept_without_deadline_never_lapses() {
    let mut controller = owned_by("alice");
    controller
        .propose_transfer(&Identity::new("alice"), Identity::new("bob"), None, &at_height(10))
        .unwrap();
    let far = BlockInfo { height: u64::MAX, time: Timestamp { nanos: u64::MAX } };
    assert!(controller.accept_transfer(&Identity::new("bob"), &far).is_ok());
    assert_eq!(controller.query(), Ok(record(Some("bob"), None, None)));
}

#[test]
fn accept_after_expiry_fails_and_clears_the_proposal() {
    let mut controller = owned_by("alice");
    controller
        .propose_transfer(
            &Identity::new("alice"),
            Identity::new("bob"),
            Some(Expiry::AtHeight(20)),
            &at_height(10),
        )
        .unwrap();
    assert_eq!(
        controller.accept_transfer(&Identity::new("bob"), &at_height(21)),
        Err(ContractError::TransferExpired)
    );
    assert_eq!(controller.query(), Ok(record(Some("alice"), None, None)));
    // the lapsed proposal cannot be tried again, not even in an earlier block
    assert_eq!(
        controller.accept_transfer(&Identity::new("bob"), &at_height(15)),
        Err(ContractError::NoPendingTransfer)
    );
}

#[test]
fn accept_in_the_block_of_the_deadline_is_too_late() {
    let mut by_height = owned_by("alice");
    by_height
        .propose_transfer(
            &Identity::new("alice"),
            Identity::new("bob"),
            Some(Expiry::AtHeight(20)),
            &at_height(10),
        )
        .unwrap();
    assert_eq!(
        by_height.accept_transfer(&Identity::new("bob"), &at_height(20)),
        Err(ContractError::TransferExpired)
    );
    let mut by_time = owned_by("alice");
    by_time
        .propose_transfer(
            &Identity::new("alice"),
            Identity::new("bob"),
            Some(Expiry::AtTime(Timestamp { nanos: 500 })),
            &at_time(100),
        )
        .unwrap();
    assert_eq!(
        by_time.accept_transfer(&Identity::new("bob"), &at_time(500)),
        Err(ContractError::TransferExpired)
    );
    assert_eq!(by_time.query(), Ok(record(Some("alice"), None, None)));
}

#[test]
fn height_deadline_ignores_time_and_time_deadline_ignores_height() {
    let mut by_height = owned_by("alice");
    by_height
        .propose_transfer(
            &Identity::new("alice"),
            Identity::new("bob"),
            Some(Expiry::AtHeight(20)),
            &at_height(10),
        )
        .unwrap();
    let late_clock = BlockInfo { height: 19, time: Timestamp { nanos: u64::MAX } };
    assert!(by_height.accept_transfer(&Identity::new("bob"), &late_clock).is_ok());

    let mut by_time = owned_by("alice");
    by_time
        .propose_transfer(
            &Identity::new("alice"),
            Identity::new("bob"),
            Some(Expiry::AtTime(Timestamp { nanos: 500 })),
            &at_time(100),
        )
        .unwrap();
    let high_block = BlockInfo { height: u64::MAX, time: Timestamp { nanos: 499 } };
    assert!(by_time.accept_transfer(&Identity::new("bob"), &high_block).is_ok());
}

#[test]
fn late_acceptance_by_a_stranger_keeps_the_proposal() {
    let mut controller = owned_by("alice");
    controller
        .propose_transfer(
            &Identity::new("alice"),
            Identity::new("bob"),
            Some(Expiry::AtHeight(20)),
            &at_height(10),
        )
        .unwrap();
    assert_eq!(
        controller.accept_transfer(&Identity::new("carol"), &at_height(30)),
        Err(ContractError::Unauthorized)
    );
    assert_eq!(
        controller.query(),
        Ok(record(Some("alice"), Some("bob"), Some(Expiry::AtHeight(20))))
    );
}

#[test]
fn query_returns_a_lapsed_proposal_as_it_is() {
    let mut controller = owned_by("alice");
    controller
        .propose_transfer(
            &Identity::new("alice"),
            Identity::new("bob"),
            Some(Expiry::AtHeight(20)),
            &at_height(10),
        )
        .unwrap();
    let before = controller.clone();
    let stored = controller.query();
    assert_eq!(stored, Ok(record(Some("alice"), Some("bob"), Some(Expiry::AtHeight(20)))));
    assert_eq!(controller, before);
}

#[test]
fn renounce_by_another_caller_is_unauthorized() {
    let mut controller = owned_by("alice");
    assert_eq!(controller.renounce(&Identity::new("bob")), Err(ContractError::Unauthorized));
    assert_eq!(controller.query(), Ok(record(Some("alice"), None, None)));
}

#[test]
fn renounce_drops_owner_and_proposal() {
    let mut controller = owned_by("alice");
    let alice = Identity::new("alice");
    controller
        .propose_transfer(&alice, Identity::new("bob"), Some(Expiry::AtHeight(20)), &at_height(10))
        .unwrap();
    assert_eq!(controller.renounce(&alice), Ok(report("none", "none", "none")));
    assert_eq!(controller.query(), Ok(record(None, None, None)));
}

#[test]
fn renounced_controller_refuses_everything() {
    let mut controller = owned_by("alice");
    let alice = Identity::new("alice");
    let bob = Identity::new("bob");
    controller.propose_transfer(&alice, bob.clone(), None, &at_height(10)).unwrap();
    controller.renounce(&alice).unwrap();
    let now = at_height(11);
    assert_eq!(controller.require_owner(&alice), Err(ContractError::Unauthorized));
    assert_eq!(controller.require_owner(&Identity::new("")), Err(ContractError::Unauthorized));
    assert_eq!(controller.require_owner(&Identity::new("none")), Err(ContractError::Unauthorized));
    assert_eq!(
        controller.propose_transfer(&alice, bob.clone(), None, &now),
        Err(ContractError::Unauthorized)
    );
    assert_eq!(controller.accept_transfer(&bob, &now), Err(ContractError::NoPendingTransfer));
    assert_eq!(controller.renounce(&alice), Err(ContractError::Unauthorized));
    assert_eq!(controller.initialize(alice), Err(ContractError::AlreadyInitialized));
    assert_eq!(controller.query(), Ok(record(None, None, None)));
}

#[test]
fn owner_is_kept_by_every_step_but_renounce() {
    let mut controller = owned_by("alice");
    let alice = Identity::new("alice");
    let bob = Identity::new("bob");
    assert!(controller.query().unwrap().owner.is_some());
    controller.propose_transfer(&alice, bob.clone(), Some(Expiry::AtHeight(20)), &at_height(10)).unwrap();
    assert!(controller.query().unwrap().owner.is_some());
    let _ = controller.accept_transfer(&bob, &at_height(25));
    assert!(controller.query().unwrap().owner.is_some());
    controller.propose_transfer(&alice, bob.clone(), None, &at_height(26)).unwrap();
    controller.accept_transfer(&bob, &at_height(27)).unwrap();
    assert_eq!(controller.query().unwrap().owner, Some(bob.clone()));
    let _ = controller.renounce(&alice);
    assert!(controller.query().unwrap().owner.is_some());
    controller.renounce(&bob).unwrap();
    assert_eq!(controller.query().unwrap().owner, None);
}

#[test]
fn update_ownership_takes_each_action() {
    let mut controller = owned_by("alice");
    let alice = Identity::new("alice");
    let bob = Identity::new("bob");
    let proposed = controller.update_ownership(
        &at_height(10),
        &alice,
        Action::TransferOwnership { new_owner: "bob".to_string(), expiry: Some(Expiry::AtHeight(20)) },
    );
    assert_eq!(proposed, Ok(report("alice", "bob", "expiration height: 20")));
    let accepted = controller.update_ownership(&at_height(11), &bob, Action::AcceptOwnership);
    assert_eq!(accepted, Ok(report("bob", "none", "none")));
    let refused = controller.update_ownership(&at_height(12), &alice, Action::RenounceOwnership);
    assert_eq!(refused, Err(ContractError::Unauthorized));
    let renounced = controller.update_ownership(&at_height(12), &bob, Action::RenounceOwnership);
    assert_eq!(renounced, Ok(report("none", "none", "none")));
}

#[test]
fn expiry_is_reached_from_its_block_on() {
    let deadline = Expiry::AtHeight(7);
    assert!(!deadline.is_expired(&at_height(6)));
    assert!(deadline.is_expired(&at_height(7)));
    assert!(deadline.is_expired(&at_height(8)));
    let deadline = Expiry::AtTime(Timestamp { nanos: 1_000 });
    assert!(!deadline.is_expired(&at_time(999)));
    assert!(deadline.is_expired(&at_time(1_000)));
    assert!(deadline.is_expired(&at_time(1_001)));
}

#[test]
fn identities_are_compared_by_address() {
    let alice = Identity::new("alice");
    assert!(alice.same_as(&Identity::new("alice")));
    assert!(!alice.same_as(&Identity::new("Alice")));
    assert!(!alice.same_as(&Identity::new("alic")));
    assert_eq!(alice.as_str(), "alice");
    assert_eq!(alice.clone(), alice);
}
