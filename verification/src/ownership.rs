//! The ownership controller: who owns the container, who has been proposed
//! to take it over, and until when the proposal can be accepted.
//!
//! Ownership changes hands in two phases. The owner proposes a successor,
//! optionally with a deadline; the successor accepts. Renouncing leaves the
//! container without an owner for good.

use vstd::prelude::*;
use crate::error::ContractError;
use crate::expiry::{BlockInfo, Expiry};
use crate::identity::{principal, Identity};
use crate::response::{attribute_views, Attribute, AttributeView, Response};

verus! {

/// The ownership record as it is stored.
///
/// `owner` is `None` once ownership has been renounced: no caller is the
/// owner then. `pending_owner` is the proposed successor and
/// `pending_expiry` the deadline of the proposal, if it has one.
#[derive(Debug, PartialEq, Eq)]
pub struct OwnerRecord {
    pub owner: Option<Identity>,
    pub pending_owner: Option<Identity>,
    pub pending_expiry: Option<Expiry>,
}

/// The ownership record over principals.
pub struct OwnerRecordView {
    pub owner: Option<Seq<char>>,
    pub pending_owner: Option<Seq<char>>,
    pub pending_expiry: Option<Expiry>,
}

impl View for OwnerRecord {
    type V = OwnerRecordView;

    open spec fn view(&self) -> OwnerRecordView {
        OwnerRecordView {
            owner: principal(self.owner),
            pending_owner: principal(self.pending_owner),
            pending_expiry: self.pending_expiry,
        }
    }
}

impl Clone for OwnerRecord {
    fn clone(&self) -> (copy: Self)
        ensures
            copy == *self,
    {
        OwnerRecord {
            owner: copy_of(&self.owner),
            pending_owner: copy_of(&self.pending_owner),
            pending_expiry: self.pending_expiry,
        }
    }
}

impl OwnerRecordView {
    /// A deadline belongs to a proposal: there is none without a successor.
    pub open spec fn well_formed(self) -> bool {
        self.pending_expiry is Some ==> self.pending_owner is Some
    }

    /// A record without a pending proposal.
    pub open spec fn settled(owner: Option<Seq<char>>) -> OwnerRecordView {
        OwnerRecordView { owner, pending_owner: None, pending_expiry: None }
    }

    /// Whether the pending proposal has a deadline that is reached in `now`.
    pub open spec fn proposal_lapsed(self, now: BlockInfo) -> bool {
        deadline_reached(self.pending_expiry, now)
    }
}

/// Whether there is a deadline and it is reached in `now`.
pub open spec fn deadline_reached(expiry: Option<Expiry>, now: BlockInfo) -> bool {
    match expiry {
        Some(deadline) => deadline.reached_at(now),
        None => false,
    }
}

/// The controller's state: `None` until it is initialized, then the record.
pub type ControllerView = Option<OwnerRecordView>;

/// Why `initialize` is refused in `state`, if it is.
pub open spec fn initialize_refusal(state: ControllerView) -> Option<ContractError> {
    if state is Some {
        Some(ContractError::AlreadyInitialized)
    } else {
        None
    }
}

/// The state that `initialize` leaves.
pub open spec fn after_initialize(state: ControllerView, owner: Seq<char>) -> ControllerView {
    if state is Some {
        state
    } else {
        Some(OwnerRecordView::settled(Some(owner)))
    }
}

/// Why `caller` is refused as the owner in `state`, if they are.
pub open spec fn owner_refusal(state: ControllerView, caller: Seq<char>) -> Option<ContractError> {
    match state {
        None => Some(ContractError::StorageFailure),
        Some(record) => if record.owner != Some(caller) {
            Some(ContractError::Unauthorized)
        } else {
            None
        },
    }
}

/// Why a proposal is refused, if it is: the caller must be the owner, and a
/// deadline must not be reached yet.
pub open spec fn propose_refusal(
    state: ControllerView,
    caller: Seq<char>,
    expiry: Option<Expiry>,
    now: BlockInfo,
) -> Option<ContractError> {
    if owner_refusal(state, caller) is Some {
        owner_refusal(state, caller)
    } else if deadline_reached(expiry, now) {
        Some(ContractError::InvalidExpiry)
    } else {
        None
    }
}

/// The state that a proposal leaves: an accepted proposal replaces whatever
/// was pending, a refused one changes nothing.
pub open spec fn after_propose(
    state: ControllerView,
    caller: Seq<char>,
    new_owner: Seq<char>,
    expiry: Option<Expiry>,
    now: BlockInfo,
) -> ControllerView {
    if propose_refusal(state, caller, expiry, now) is Some {
        state
    } else {
        Some(
            OwnerRecordView {
                pending_owner: Some(new_owner),
                pending_expiry: expiry,
                ..state->0
            },
        )
    }
}

/// Why an acceptance is refused, if it is. The checks come in this order:
/// there must be a proposal, the caller must be the proposed successor, and
/// the proposal's deadline must not be reached.
pub open spec fn accept_refusal(
    state: ControllerView,
    caller: Seq<char>,
    now: BlockInfo,
) -> Option<ContractError> {
    match state {
        None => Some(ContractError::StorageFailure),
        Some(record) => if record.pending_owner is None {
            Some(ContractError::NoPendingTransfer)
        } else if record.pending_owner != Some(caller) {
            Some(ContractError::Unauthorized)
        } else if record.proposal_lapsed(now) {
            Some(ContractError::TransferExpired)
        } else {
            None
        },
    }
}

/// The state that an acceptance leaves. A successful one makes the successor
/// the owner. One that comes too late drops the lapsed proposal and keeps
/// the owner. Any other refusal changes nothing.
pub open spec fn after_accept(
    state: ControllerView,
    caller: Seq<char>,
    now: BlockInfo,
) -> ControllerView {
    match accept_refusal(state, caller, now) {
        None => Some(OwnerRecordView::settled(Some(caller))),
        Some(ContractError::TransferExpired) => Some(OwnerRecordView::settled(state->0.owner)),
        Some(_) => state,
    }
}

/// The state that renouncing leaves: no owner and no proposal, if the caller
/// is the owner; else nothing changes.
pub open spec fn after_renounce(state: ControllerView, caller: Seq<char>) -> ControllerView {
    if owner_refusal(state, caller) is Some {
        state
    } else {
        Some(OwnerRecordView::settled(None))
    }
}

/// What a caller may ask of the controller once it is initialized.
#[derive(Debug, PartialEq, Eq)]
pub enum Action {
    /// Propose `new_owner` as the successor, to accept before `expiry` if
    /// one is given. Reserved for the owner.
    TransferOwnership { new_owner: String, expiry: Option<Expiry> },
    /// Accept the pending proposal. Reserved for the proposed successor.
    AcceptOwnership,
    /// Give up ownership for good. Reserved for the owner.
    RenounceOwnership,
}

/// One step of the controller, with the principal that takes it.
pub enum Transition {
    Initialize { owner: Seq<char> },
    Propose { caller: Seq<char>, new_owner: Seq<char>, expiry: Option<Expiry> },
    Accept { caller: Seq<char> },
    Renounce { caller: Seq<char> },
}

impl Action {
    /// The step that `sender` takes with this action.
    pub open spec fn taken_by(self, sender: Seq<char>) -> Transition {
        match self {
            Action::TransferOwnership { new_owner, expiry } => Transition::Propose {
                caller: sender,
                new_owner: new_owner@,
                expiry,
            },
            Action::AcceptOwnership => Transition::Accept { caller: sender },
            Action::RenounceOwnership => Transition::Renounce { caller: sender },
        }
    }
}

/// Why a step is refused in `state` at `now`, if it is.
pub open spec fn step_refusal(
    state: ControllerView,
    step: Transition,
    now: BlockInfo,
) -> Option<ContractError> {
    match step {
        Transition::Initialize { .. } => initialize_refusal(state),
        Transition::Propose { caller, expiry, .. } => propose_refusal(state, caller, expiry, now),
        Transition::Accept { caller } => accept_refusal(state, caller, now),
        Transition::Renounce { caller } => owner_refusal(state, caller),
    }
}

/// The state that a step leaves when it is taken in `state` at `now`.
pub open spec fn after_step(
    state: ControllerView,
    step: Transition,
    now: BlockInfo,
) -> ControllerView {
    match step {
        Transition::Initialize { owner } => after_initialize(state, owner),
        Transition::Propose { caller, new_owner, expiry } => {
            after_propose(state, caller, new_owner, expiry, now)
        },
        Transition::Accept { caller } => after_accept(state, caller, now),
        Transition::Renounce { caller } => after_renounce(state, caller),
    }
}

/// What `cw_utils::Expiration` prints for a deadline.
pub uninterp spec fn expiration_text(expiry: Expiry) -> Seq<char>;

/// The text of a field that may be absent: `none` where it is.
pub open spec fn text_or_none(text: Option<Seq<char>>) -> Seq<char> {
    match text {
        Some(text) => text,
        None => "none"@,
    }
}

/// The text of the deadline of a proposal: `none` where it has none.
pub open spec fn deadline_text(expiry: Option<Expiry>) -> Seq<char> {
    match expiry {
        Some(deadline) => expiration_text(deadline),
        None => "none"@,
    }
}

/// The record as attributes: the owner, the proposed successor and the
/// deadline, in this order, each printed, or `none` where there is none.
pub open spec fn ownership_attributes(record: OwnerRecordView) -> Seq<AttributeView> {
    seq![
        ("owner"@, text_or_none(record.owner)),
        ("pending_owner"@, text_or_none(record.pending_owner)),
        ("pending_expiry"@, deadline_text(record.pending_expiry)),
    ]
}

/// What a successful ownership update reports: the action, then the record
/// as the update left it.
pub open spec fn ownership_report(record: OwnerRecordView) -> Seq<AttributeView> {
    seq![("action"@, "update_ownership"@)] + ownership_attributes(record)
}

/// Calls `cw_ownable::Ownership::into_attributes` on the record. Trusted: it
/// returns three attributes with the keys `owner`, `pending_owner` and
/// `pending_expiry`, in this order; an address is printed as it is, a
/// deadline as `cw_utils::Expiration` prints it, and an absent field as
/// `none`.
#[verifier::external_body]
fn describe_ownership(record: &OwnerRecord) -> (attributes: Vec<Attribute>)
    ensures
        attribute_views(attributes@) == seq![
            ("owner"@, text_or_none(record@.owner)),
            ("pending_owner"@, text_or_none(record@.pending_owner)),
            (
                "pending_expiry"@,
                match record.pending_expiry {
                    Some(deadline) => expiration_text(deadline),
                    None => "none"@,
                },
            ),
        ],
{
    let ownership = cw_ownable::Ownership {
        owner: record.owner.as_ref().map(|id| cosmwasm_std::Addr::unchecked(id.as_str())),
        pending_owner: record.pending_owner.as_ref().map(|id| cosmwasm_std::Addr::unchecked(id.as_str())),
        pending_expiry: record.pending_expiry.map(|expiry| match expiry {
            Expiry::AtHeight(height) => cw_utils::Expiration::AtHeight(height),
            Expiry::AtTime(time) => cw_utils::Expiration::AtTime(cosmwasm_std::Timestamp::from_nanos(time.nanos)),
        }),
    };
    let described = ownership.into_attributes().into_iter();
    described.map(|attribute| Attribute { key: attribute.key, value: attribute.value }).collect()
}

/// The response to a successful ownership update, given the attributes that
/// describe the record.
pub fn ownership_response(described: Vec<Attribute>) -> (response: Response)
    ensures
        response@ == seq![("action"@, "update_ownership"@)] + attribute_views(described@),
{
    let response = Response::new()
        .add_attribute("action", "update_ownership")
        .add_attributes(described);
    assert(response@ =~= seq![("action"@, "update_ownership"@)] + attribute_views(described@));
    response
}

fn copy_of(slot: &Option<Identity>) -> (copy: Option<Identity>)
    ensures
        copy == *slot,
{
    match slot {
        Some(holder) => Some(holder.clone()),
        None => None,
    }
}

fn is_held(slot: &Option<Identity>, caller: &Identity) -> (held: bool)
    ensures
        held == (principal(*slot) == Some(caller@)),
{
    match slot {
        Some(holder) => holder.same_as(caller),
        None => false,
    }
}

/// The ownership controller. It alone writes the ownership record.
#[derive(Debug, PartialEq, Eq)]
pub struct OwnershipController {
    /// The stored record; `None` until `initialize` has run.
    pub record: Option<OwnerRecord>,
}

impl Clone for OwnershipController {
    fn clone(&self) -> (copy: Self)
        ensures
            copy == *self,
    {
        OwnershipController {
            record: match &self.record {
                Some(record) => Some(record.clone()),
                None => None,
            },
        }
    }
}

impl View for OwnershipController {
    type V = ControllerView;

    open spec fn view(&self) -> ControllerView {
        match self.record {
            Some(record) => Some(record@),
            None => None,
        }
    }
}

impl OwnershipController {
    /// A controller without a record.
    pub fn new() -> (controller: OwnershipController)
        ensures
            controller@ is None,
    {
        OwnershipController { record: None }
    }

    /// Creates the record with `initial_owner` as the owner and nothing
    /// pending. Refused with `AlreadyInitialized` if a record exists.
    pub fn initialize(&mut self, initial_owner: Identity) -> (result: Result<(), ContractError>)
        ensures
            final(self)@ == after_initialize(old(self)@, initial_owner@),
            match result {
                Ok(()) => old(self)@ is None,
                Err(error) => error == ContractError::AlreadyInitialized && old(self)@ is Some,
            },
    {
        if self.record.is_some() {
            return Err(ContractError::AlreadyInitialized);
        }
        self.record = Some(
            OwnerRecord { owner: Some(initial_owner), pending_owner: None, pending_expiry: None },
        );
        Ok(())
    }

    /// Succeeds if `caller` is the owner; else `Unauthorized`, or
    /// `StorageFailure` if there is no record.
    pub fn require_owner(&self, caller: &Identity) -> (result: Result<(), ContractError>)
        ensures
            match result {
                Ok(()) => owner_refusal(self@, caller@) is None,
                Err(error) => owner_refusal(self@, caller@) == Some(error),
            },
    {
        match &self.record {
            None => Err(ContractError::StorageFailure),
            Some(record) => if is_held(&record.owner, caller) {
                Ok(())
            } else {
                Err(ContractError::Unauthorized)
            },
        }
    }

    /// Proposes `new_owner` as the successor, replacing whatever was
    /// pending. Only the owner may propose, and a deadline, if one is given,
    /// must not be reached in `now`.
    pub fn propose_transfer(
        &mut self,
        caller: &Identity,
        new_owner: Identity,
        expiry: Option<Expiry>,
        now: &BlockInfo,
    ) -> (result: Result<Response, ContractError>)
        ensures
            final(self)@ == after_propose(old(self)@, caller@, new_owner@, expiry, *now),
            match result {
                Ok(response) => propose_refusal(old(self)@, caller@, expiry, *now) is None
                    && response@ == ownership_report(final(self)@->0),
                Err(error) => propose_refusal(old(self)@, caller@, expiry, *now) == Some(error),
            },
            // a deadline that is already reached is never stored
            deadline_reached(expiry, *now) ==> result is Err && final(self)@ == old(self)@,
            deadline_reached(expiry, *now) && owner_refusal(old(self)@, caller@) is None
                ==> result == Err::<Response, ContractError>(ContractError::InvalidExpiry),
    {
        match &mut self.record {
            None => Err(ContractError::StorageFailure),
            Some(record) => {
                if !is_held(&record.owner, caller) {
                    return Err(ContractError::Unauthorized);
                }
                if let Some(deadline) = expiry {
                    if deadline.is_expired(now) {
                        return Err(ContractError::InvalidExpiry);
                    }
                }
                record.pending_owner = Some(new_owner);
                record.pending_expiry = expiry;
                Ok(ownership_response(describe_ownership(record)))
            },
        }
    }

    /// Accepts the pending proposal: the proposed successor becomes the
    /// owner. Anyone else is refused, the current owner included. An
    /// acceptance that comes after the deadline is refused too, and the
    /// lapsed proposal is dropped: it takes a new proposal to try again.
    pub fn accept_transfer(
        &mut self,
        caller: &Identity,
        now: &BlockInfo,
    ) -> (result: Result<Response, ContractError>)
        ensures
            final(self)@ == after_accept(old(self)@, caller@, *now),
            match result {
                Ok(response) => accept_refusal(old(self)@, caller@, *now) is None
                    && response@ == ownership_report(final(self)@->0),
                Err(error) => accept_refusal(old(self)@, caller@, *now) == Some(error),
            },
            // only the proposed successor is let through
            old(self)@ is Some && old(self)@->0.pending_owner is Some
                && old(self)@->0.pending_owner != Some(caller@)
                ==> result == Err::<Response, ContractError>(ContractError::Unauthorized)
                    && final(self)@ == old(self)@,
            // the successor, too late: refused, and the proposal is gone
            old(self)@ is Some && old(self)@->0.pending_owner == Some(caller@)
                && old(self)@->0.proposal_lapsed(*now)
                ==> result == Err::<Response, ContractError>(ContractError::TransferExpired)
                    && final(self)@ == Some(OwnerRecordView::settled(old(self)@->0.owner)),
    {
        match &mut self.record {
            None => Err(ContractError::StorageFailure),
            Some(record) => {
                if record.pending_owner.is_none() {
                    return Err(ContractError::NoPendingTransfer);
                }
                if !is_held(&record.pending_owner, caller) {
                    return Err(ContractError::Unauthorized);
                }
                let lapsed = match record.pending_expiry {
                    Some(deadline) => deadline.is_expired(now),
                    None => false,
                };
                let successor = record.pending_owner.take();
                record.pending_expiry = None;
                if lapsed {
                    return Err(ContractError::TransferExpired);
                }
                record.owner = successor;
                Ok(ownership_response(describe_ownership(record)))
            },
        }
    }

    /// Gives up ownership for good: no owner and no proposal remain, and
    /// since only an owner can propose, none can ever come back.
    pub fn renounce(&mut self, caller: &Identity) -> (result: Result<Response, ContractError>)
        ensures
            final(self)@ == after_renounce(old(self)@, caller@),
            match result {
                Ok(response) => owner_refusal(old(self)@, caller@) is None
                    && response@ == ownership_report(final(self)@->0),
                Err(error) => owner_refusal(old(self)@, caller@) == Some(error),
            },
    {
        match &mut self.record {
            None => Err(ContractError::StorageFailure),
            Some(record) => {
                if !is_held(&record.owner, caller) {
                    return Err(ContractError::Unauthorized);
                }
                record.owner = None;
                record.pending_owner = None;
                record.pending_expiry = None;
                Ok(ownership_response(describe_ownership(record)))
            },
        }
    }

    /// Takes the step that `action` asks for on behalf of `sender`, in the
    /// block `block`.
    pub fn update_ownership(
        &mut self,
        block: &BlockInfo,
        sender: &Identity,
        action: Action,
    ) -> (result: Result<Response, ContractError>)
        ensures
            final(self)@ == after_step(old(self)@, action.taken_by(sender@), *block),
            match result {
                Ok(response) => step_refusal(old(self)@, action.taken_by(sender@), *block) is None
                    && response@ == ownership_report(final(self)@->0),
                Err(error) => step_refusal(old(self)@, action.taken_by(sender@), *block) == Some(error),
            },
    {
        match action {
            Action::TransferOwnership { new_owner, expiry } => {
                self.propose_transfer(sender, Identity { address: new_owner }, expiry, block)
            },
            Action::AcceptOwnership => self.accept_transfer(sender, block),
            Action::RenounceOwnership => self.renounce(sender),
        }
    }

    /// The record as it stands, pending proposal included, whether or not
    /// its deadline has been reached. `StorageFailure` if there is none.
    pub fn query(&self) -> (result: Result<OwnerRecord, ContractError>)
        ensures
            match result {
                Ok(record) => self@ == Some(record@),
                Err(error) => error == ContractError::StorageFailure && self@ is None,
            },
    {
        match &self.record {
            None => Err(ContractError::StorageFailure),
            Some(record) => Ok(record.clone()),
        }
    }
}

/// The state of a controller that starts without a record and takes
/// `steps` in order, each in its block.
pub open spec fn run(steps: Seq<(Transition, BlockInfo)>) -> ControllerView
    decreases steps.len(),
{
    if steps.len() == 0 {
        None
    } else {
        after_step(run(steps.drop_last()), steps.last().0, steps.last().1)
    }
}

/// Whether step `i` of `steps` renounces ownership and is let through.
pub open spec fn renounced_at(steps: Seq<(Transition, BlockInfo)>, i: int) -> bool {
    &&& 0 <= i < steps.len()
    &&& steps[i].0 is Renounce
    &&& step_refusal(run(steps.take(i)), steps[i].0, steps[i].1) is None
}

/// A controller has an owner from its initialization on, whatever steps it
/// takes, unless one of them is a renouncement by the owner.
pub proof fn lemma_owner_unless_renounced(steps: Seq<(Transition, BlockInfo)>)
    ensures
        run(steps) is Some && run(steps)->0.owner is None
            ==> exists|i: int| renounced_at(steps, i),
    decreases steps.len(),
{
    if steps.len() > 0 {
        let earlier = steps.drop_last();
        let last = steps.len() - 1;
        lemma_owner_unless_renounced(earlier);
        assert(steps.take(last) == earlier);
        if run(steps) is Some && run(steps)->0.owner is None {
            if run(earlier) is Some && run(earlier)->0.owner is None {
                let i = choose|i: int| renounced_at(earlier, i);
                assert(steps.take(i) == earlier.take(i));
                assert(renounced_at(steps, i));
            } else {
                assert(renounced_at(steps, last));
            }
        }
    }
}

/// A deadline is only ever stored with the proposal that it belongs to.
pub proof fn lemma_step_keeps_well_formed(state: ControllerView, step: Transition, now: BlockInfo)
    requires
        state is Some ==> state->0.well_formed(),
    ensures
        after_step(state, step, now) is Some ==> after_step(state, step, now)->0.well_formed(),
{
}

/// Renouncing is final: in a renounced controller every step is refused and
/// changes nothing.
pub proof fn lemma_renounced_is_final(state: ControllerView, step: Transition, now: BlockInfo)
    requires
        state == Some(OwnerRecordView::settled(None)),
    ensures
        step_refusal(state, step, now) is Some,
        after_step(state, step, now) == state,
{
}

} // verus!
