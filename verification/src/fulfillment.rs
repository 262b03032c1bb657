//! The economic event zome's fulfillment handlers: the creation of a
//! fulfillment as a state machine, and the selection of the fulfillments a
//! link query found.
use vstd::prelude::*;
use crate::zome::{Address, ZomeApiError, keep_loaded, loaded_entries};

verus! {

/// The entry types the fulfillment handlers store.
pub enum FulfillmentEntryType {
    /// The anchor a fulfillment's address starts from.
    FulfillmentBase,
    /// The fulfillment entry itself.
    Fulfillment,
}

/// The links between fulfillments and economic events, each with the link
/// type and tag the economic event zome registers for it.
pub enum FulfillmentLink {
    /// From a fulfillment to the event it is fulfilled by.
    FulfillmentFulfilledBy,
    /// From an event to the fulfillments it fulfills.
    EventFulfills,
}

/// The DNAs the economic event zome calls into.
pub enum BridgedDna {
    /// The planning DNA, where commitments live.
    Planning,
}

/// The capability a call into another DNA is made with.
pub enum Capability {
    /// The public capability token.
    Public,
}

/// The functions the economic event zome calls in another DNA.
pub enum RemoteCall {
    /// The commitment zome's `create_fulfillment`.
    CommitmentCreateFulfillment,
}

impl RemoteCall {
    /// The name of the zome called.
    pub fn zome_name(&self) -> (s: &'static str)
        ensures
            s@ == "commitment"@,
    {
        "commitment"
    }

    /// The name of the function called.
    pub fn function_name(&self) -> (s: &'static str)
        ensures
            s@ == "create_fulfillment"@,
    {
        "create_fulfillment"
    }
}

/// The link a fulfillment query reads: from the event to the fulfillments
/// it fulfills.
pub fn fulfillment_query_link() -> (l: FulfillmentLink)
    ensures
        l == FulfillmentLink::EventFulfills,
{
    FulfillmentLink::EventFulfills
}

/// What the fulfillment creation asks of the DHT next.
pub enum FulfillmentAction<E> {
    /// Store the request as a new record: an anchor of `base_type` pointing
    /// to an entry of `entry_type`.
    CreateRecord { base_type: FulfillmentEntryType, entry_type: FulfillmentEntryType },
    /// Link the new fulfillment and the event it is fulfilled by, both ways:
    /// `forward` from the fulfillment, `inverse` from the event.
    LinkToEvent { fulfillment: Address, event: Address, forward: FulfillmentLink, inverse: FulfillmentLink },
    /// Register the request with another DNA as well, by calling `call` there
    /// with `capability`.
    NotifyPlanning { dna: BridgedDna, capability: Capability, call: RemoteCall },
    /// Answer the request with the stored record or an error.
    Respond(Result<(Address, E), ZomeApiError>),
}

/// What the DHT answered to the fulfillment creation's last action. The
/// answers to the link and to the planning DNA are not looked at.
pub enum FulfillmentEvent<E> {
    RecordCreated(Result<(Address, E), ZomeApiError>),
    Linked,
    PlanningNotified,
}

/// Storing a fulfillment: an anchor of the fulfillment base type pointing to
/// a fulfillment entry.
pub open spec fn create_action<E>() -> FulfillmentAction<E> {
    FulfillmentAction::CreateRecord {
        base_type: FulfillmentEntryType::FulfillmentBase,
        entry_type: FulfillmentEntryType::Fulfillment,
    }
}

/// Linking the fulfillment at `fulfillment` and the event at `event`: the
/// fulfilled-by link from the fulfillment, the fulfills link from the event.
pub open spec fn link_action<E>(fulfillment: Address, event: Address) -> FulfillmentAction<E> {
    FulfillmentAction::LinkToEvent {
        fulfillment,
        event,
        forward: FulfillmentLink::FulfillmentFulfilledBy,
        inverse: FulfillmentLink::EventFulfills,
    }
}

/// Registering the fulfillment with the planning DNA's commitment zome, with
/// the public capability.
pub open spec fn notify_action<E>() -> FulfillmentAction<E> {
    FulfillmentAction::NotifyPlanning {
        dna: BridgedDna::Planning,
        capability: Capability::Public,
        call: RemoteCall::CommitmentCreateFulfillment,
    }
}

/// Where the creation of a fulfillment stands.
pub enum CreateFulfillment<E> {
    /// The record has been asked to be stored; `fulfilled_by` is the event
    /// that the request names.
    AwaitingRecord { fulfilled_by: Address },
    /// The new fulfillment has been asked to be linked to its event.
    AwaitingLink { address: Address, entry: E },
    /// The planning DNA has been asked to register the fulfillment.
    AwaitingPlanning { address: Address, entry: E },
    /// The request has been answered.
    Finished,
}

impl<E> CreateFulfillment<E> {
    /// Whether the event answers the action that this state waits on.
    pub open spec fn awaits(self, event: FulfillmentEvent<E>) -> bool {
        match self {
            CreateFulfillment::AwaitingRecord { .. } => event is RecordCreated,
            CreateFulfillment::AwaitingLink { .. } => event is Linked,
            CreateFulfillment::AwaitingPlanning { .. } => event is PlanningNotified,
            CreateFulfillment::Finished => false,
        }
    }

    /// The state and action that follow this state on `event`.
    pub open spec fn transition(self, event: FulfillmentEvent<E>, next: CreateFulfillment<E>, action: FulfillmentAction<E>) -> bool {
        match self {
            CreateFulfillment::AwaitingRecord { fulfilled_by } => match event {
                FulfillmentEvent::RecordCreated(Ok((address, entry))) => next == (CreateFulfillment::AwaitingLink {
                    address,
                    entry,
                }) && action == link_action::<E>(address, fulfilled_by),
                FulfillmentEvent::RecordCreated(Err(e)) => next == CreateFulfillment::<E>::Finished
                    && action == FulfillmentAction::<E>::Respond(Err(e)),
                _ => false,
            },
            CreateFulfillment::AwaitingLink { address, entry } => match event {
                FulfillmentEvent::Linked => next == (CreateFulfillment::AwaitingPlanning { address, entry })
                    && action == notify_action::<E>(),
                _ => false,
            },
            CreateFulfillment::AwaitingPlanning { address, entry } => match event {
                FulfillmentEvent::PlanningNotified => next == CreateFulfillment::<E>::Finished
                    && action == FulfillmentAction::<E>::Respond(Ok((address, entry))),
                _ => false,
            },
            CreateFulfillment::Finished => false,
        }
    }

    /// Starts creating a fulfillment of the event `fulfilled_by`: first the
    /// record is stored.
    pub fn start(fulfilled_by: Address) -> (r: (CreateFulfillment<E>, FulfillmentAction<E>))
        ensures
            r.0 == (CreateFulfillment::<E>::AwaitingRecord { fulfilled_by }),
            r.1 == create_action::<E>(),
    {
        (
            CreateFulfillment::AwaitingRecord { fulfilled_by },
            FulfillmentAction::CreateRecord {
                base_type: FulfillmentEntryType::FulfillmentBase,
                entry_type: FulfillmentEntryType::Fulfillment,
            },
        )
    }

    /// Takes the DHT's answer to the last action: once the record is stored,
    /// it is linked to its event, registered with the planning DNA, and
    /// answered; a failed store answers with its error and nothing else is
    /// done.
    pub fn step(self, event: FulfillmentEvent<E>) -> (r: (CreateFulfillment<E>, FulfillmentAction<E>))
        requires
            self.awaits(event),
        ensures
            self.transition(event, r.0, r.1),
    {
        match (self, event) {
            (CreateFulfillment::AwaitingRecord { fulfilled_by }, FulfillmentEvent::RecordCreated(res)) => {
                match res {
                    Ok((address, entry)) => {
                        let a = address.duplicate();
                        (
                            CreateFulfillment::AwaitingLink { address, entry },
                            FulfillmentAction::LinkToEvent {
                                fulfillment: a,
                                event: fulfilled_by,
                                forward: FulfillmentLink::FulfillmentFulfilledBy,
                                inverse: FulfillmentLink::EventFulfills,
                            },
                        )
                    },
                    Err(e) => (CreateFulfillment::Finished, FulfillmentAction::Respond(Err(e))),
                }
            },
            (CreateFulfillment::AwaitingLink { address, entry }, FulfillmentEvent::Linked) => {
                (
                    CreateFulfillment::AwaitingPlanning { address, entry },
                    FulfillmentAction::NotifyPlanning {
                        dna: BridgedDna::Planning,
                        capability: Capability::Public,
                        call: RemoteCall::CommitmentCreateFulfillment,
                    },
                )
            },
            (CreateFulfillment::AwaitingPlanning { address, entry }, FulfillmentEvent::PlanningNotified) => {
                (CreateFulfillment::Finished, FulfillmentAction::Respond(Ok((address, entry))))
            },
            (state, _) => {
                proof {
                    assert(false);
                }
                (state, FulfillmentAction::Respond(Err(ZomeApiError::FunctionNotImplemented)))
            },
        }
    }
}

/// A failed store ends the creation of a fulfillment: the request is
/// answered with the DHT's error, and nothing is linked or registered.
pub proof fn lemma_create_fulfillment_failure_ends<E>(
    fulfilled_by: Address,
    e: ZomeApiError,
    next: CreateFulfillment<E>,
    action: FulfillmentAction<E>,
)
    requires
        (CreateFulfillment::<E>::AwaitingRecord { fulfilled_by }).transition(
            FulfillmentEvent::RecordCreated(Err(e)),
            next,
            action,
        ),
    ensures
        next == CreateFulfillment::<E>::Finished,
        action == FulfillmentAction::<E>::Respond(Err(e)),
{
}

/// Creating a fulfillment whose record is stored links it to the event the
/// request names, then registers it with the planning DNA, then answers with
/// the stored record, whatever the link and the registration answered.
pub proof fn lemma_create_fulfillment_run<E>(
    fulfilled_by: Address,
    address: Address,
    entry: E,
    s1: CreateFulfillment<E>,
    a1: FulfillmentAction<E>,
    s2: CreateFulfillment<E>,
    a2: FulfillmentAction<E>,
    s3: CreateFulfillment<E>,
    a3: FulfillmentAction<E>,
)
    requires
        (CreateFulfillment::<E>::AwaitingRecord { fulfilled_by }).transition(
            FulfillmentEvent::RecordCreated(Ok((address, entry))),
            s1,
            a1,
        ),
        s1.transition(FulfillmentEvent::Linked, s2, a2),
        s2.transition(FulfillmentEvent::PlanningNotified, s3, a3),
    ensures
        a1 == link_action::<E>(address, fulfilled_by),
        a2 == notify_action::<E>(),
        a3 == FulfillmentAction::<E>::Respond(Ok((address, entry))),
        s3 == CreateFulfillment::<E>::Finished,
{
}

/// The message a fulfillment query answers with when its links cannot be read.
pub open spec fn links_unreadable_message() -> Seq<char> {
    "could not load linked addresses"@
}

/// The records a fulfillment query answers with, from what the link query
/// gave back: the records whose entry could be read, in order; where the
/// links could not be read, an error saying so, whatever the DHT's error was.
pub fn select_fulfillments<E>(loaded: Result<Vec<(Address, Option<E>)>, ZomeApiError>) -> (r: Result<Vec<(Address, E)>, ZomeApiError>)
    ensures
        match loaded {
            Ok(found) => r matches Ok(v) && v@ == loaded_entries(found@),
            Err(_) => r matches Err(ZomeApiError::Internal(msg)) && msg@ == links_unreadable_message(),
        },
{
    match loaded {
        Ok(found) => Ok(keep_loaded(found)),
        _ => Err(ZomeApiError::Internal("could not load linked addresses".to_owned())),
    }
}

} // verus!
