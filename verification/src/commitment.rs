//! The commitment zome's request handlers, as state machines: each step takes
//! what the DHT answered to the last action and says what to do next, until
//! the request is answered. The caller performs each action against the DHT.
use vstd::prelude::*;
use crate::zome::{Address, ZomeApiError, addresses_view, copy_addresses};

verus! {

/// The entry type of the anchors that commitment addresses start from.
pub const COMMITMENT_BASE_ENTRY_TYPE: &'static str = "vf_commitment_base";
/// The entry type of commitment entries.
pub const COMMITMENT_ENTRY_TYPE: &'static str = "vf_commitment";
/// The link type from an anchor to its record's initial entry.
pub const LINK_TYPE_INITIAL_ENTRY: &'static str = "record_initial_entry";
/// The tag of the link from an anchor to its record's initial entry.
pub const LINK_TAG_INITIAL_ENTRY: &'static str = LINK_TYPE_INITIAL_ENTRY;

/// The entry types the commitment handlers store.
pub enum CommitmentEntryType {
    /// The anchor a commitment's address starts from.
    CommitmentBase,
    /// The commitment entry itself.
    Commitment,
}

impl CommitmentEntryType {
    /// The registered name of the entry type.
    pub open spec fn spec_name(self) -> Seq<char> {
        match self {
            CommitmentEntryType::CommitmentBase => "vf_commitment_base"@,
            CommitmentEntryType::Commitment => "vf_commitment"@,
        }
    }

    /// The registered name of the entry type.
    pub fn name(&self) -> (s: &'static str)
        ensures
            s@ == self.spec_name(),
    {
        match self {
            CommitmentEntryType::CommitmentBase => COMMITMENT_BASE_ENTRY_TYPE,
            CommitmentEntryType::Commitment => COMMITMENT_ENTRY_TYPE,
        }
    }
}

/// The links the commitment handlers read.
pub enum CommitmentLink {
    /// From a commitment to the fulfillments it is fulfilled by, under the
    /// commitment zome's fulfilled-by link type and tag.
    FulfilledBy,
}

/// A commitment as a handler answers it: its base address, its entry and the
/// fulfillments it is linked to, where those are known.
pub struct CommitmentRecord<E> {
    pub base_address: Address,
    pub entry: E,
    pub fulfills: Option<Vec<Address>>,
}

/// What a commitment handler asks of the DHT next.
pub enum CommitmentAction<E> {
    /// Read the address of the current entry that a base address points to.
    ReadEntryAddress(Address),
    /// Read the targets of the links of the given kind from a commitment's
    /// base address.
    ReadFulfillmentLinks(Address, CommitmentLink),
    /// Read the commitment entry stored at an address.
    ReadEntry(Address),
    /// Store the request as a new record: an anchor of the first entry type
    /// pointing to an entry of the second.
    CreateRecord(CommitmentEntryType, CommitmentEntryType),
    /// Link the commitment at the first address to the fulfillments listed.
    LinkFulfillments(Address, Vec<Address>),
    /// Merge the update request's fields into this previous entry.
    MergeUpdate(E),
    /// Write the entry, of the entry type given, as the new version of the
    /// entry at the address.
    WriteEntry(E, Address, CommitmentEntryType),
    /// Answer the request.
    Respond(Result<CommitmentRecord<E>, ZomeApiError>),
}

/// What the DHT answered to a commitment handler's last action.
pub enum CommitmentEvent<E> {
    EntryAddressRead(Result<Address, ZomeApiError>),
    FulfillmentLinksRead(Result<Vec<Address>, ZomeApiError>),
    EntryRead(Result<E, ZomeApiError>),
    RecordCreated(Result<(Address, E), ZomeApiError>),
    FulfillmentsLinked,
    UpdateMerged(E),
    EntryWritten(Result<Address, ZomeApiError>),
}

/// Whether `action` answers with the record of `base_address`, `entry` and
/// the fulfillments `fulfills`.
pub open spec fn responds_with<E>(
    action: CommitmentAction<E>,
    base_address: Address,
    entry: E,
    fulfills: Option<Seq<Address>>,
) -> bool {
    action matches CommitmentAction::Respond(Ok(rec)) && rec.base_address == base_address
        && rec.entry == entry && addresses_view(rec.fulfills) == fulfills
}

/// Whether `action` answers with the error `e`.
pub open spec fn responds_with_error<E>(action: CommitmentAction<E>, e: ZomeApiError) -> bool {
    action == CommitmentAction::<E>::Respond(Err(e))
}

impl<E> CommitmentEvent<E> {
    /// The error the DHT answered with, where the event is a failure.
    pub open spec fn failure(self) -> Option<ZomeApiError> {
        match self {
            CommitmentEvent::EntryAddressRead(Err(e)) => Some(e),
            CommitmentEvent::FulfillmentLinksRead(Err(e)) => Some(e),
            CommitmentEvent::EntryRead(Err(e)) => Some(e),
            CommitmentEvent::RecordCreated(Err(e)) => Some(e),
            CommitmentEvent::EntryWritten(Err(e)) => Some(e),
            _ => None,
        }
    }
}

// ---------------------------------------------------------------- read

/// Where a read of a commitment stands.
pub enum GetCommitment {
    /// The base address's current entry address has been asked for.
    AwaitingEntryAddress { base_address: Address },
    /// The base address's fulfillment links have been asked for.
    AwaitingFulfillmentLinks { base_address: Address, entry_address: Address },
    /// The entry has been asked for.
    AwaitingEntry { base_address: Address, fulfillments: Vec<Address> },
    /// The request has been answered.
    Finished,
}

impl GetCommitment {
    /// Whether the event answers the action that this state waits on.
    pub open spec fn awaits<E>(self, event: CommitmentEvent<E>) -> bool {
        match self {
            GetCommitment::AwaitingEntryAddress { .. } => event is EntryAddressRead,
            GetCommitment::AwaitingFulfillmentLinks { .. } => event is FulfillmentLinksRead,
            GetCommitment::AwaitingEntry { .. } => event is EntryRead,
            GetCommitment::Finished => false,
        }
    }

    /// The state and action that follow this state on `event`.
    pub open spec fn transition<E>(self, event: CommitmentEvent<E>, next: GetCommitment, action: CommitmentAction<E>) -> bool {
        match self {
            GetCommitment::AwaitingEntryAddress { base_address } => match event {
                CommitmentEvent::EntryAddressRead(Ok(entry_address)) => next == (GetCommitment::AwaitingFulfillmentLinks {
                    base_address,
                    entry_address,
                }) && action == CommitmentAction::<E>::ReadFulfillmentLinks(base_address, CommitmentLink::FulfilledBy),
                CommitmentEvent::EntryAddressRead(Err(e)) => next == GetCommitment::Finished
                    && responds_with_error(action, e),
                _ => false,
            },
            GetCommitment::AwaitingFulfillmentLinks { base_address, entry_address } => match event {
                CommitmentEvent::FulfillmentLinksRead(Ok(fulfillments)) => next == (GetCommitment::AwaitingEntry {
                    base_address,
                    fulfillments,
                }) && action == CommitmentAction::<E>::ReadEntry(entry_address),
                CommitmentEvent::FulfillmentLinksRead(Err(e)) => next == GetCommitment::Finished
                    && responds_with_error(action, e),
                _ => false,
            },
            GetCommitment::AwaitingEntry { base_address, fulfillments } => match event {
                CommitmentEvent::EntryRead(Ok(entry)) => next == GetCommitment::Finished
                    && responds_with(action, base_address, entry, Some(fulfillments@)),
                CommitmentEvent::EntryRead(Err(e)) => next == GetCommitment::Finished
                    && responds_with_error(action, e),
                _ => false,
            },
            GetCommitment::Finished => false,
        }
    }

    /// Starts reading the commitment whose base address is `address`: first
    /// its current entry address is read.
    pub fn start<E>(address: Address) -> (r: (GetCommitment, CommitmentAction<E>))
        ensures
            r.0 == (GetCommitment::AwaitingEntryAddress { base_address: address }),
            r.1 == CommitmentAction::<E>::ReadEntryAddress(address),
    {
        let a = address.duplicate();
        (GetCommitment::AwaitingEntryAddress { base_address: address }, CommitmentAction::ReadEntryAddress(a))
    }

    /// Takes the DHT's answer to the last action: the entry address, then the
    /// fulfillment links, then the entry are read, and the commitment is
    /// answered with them; the first failed read answers with its error.
    pub fn step<E>(self, event: CommitmentEvent<E>) -> (r: (GetCommitment, CommitmentAction<E>))
        requires
            self.awaits(event),
        ensures
            self.transition(event, r.0, r.1),
    {
        match (self, event) {
            (GetCommitment::AwaitingEntryAddress { base_address }, CommitmentEvent::EntryAddressRead(res)) => {
                match res {
                    Ok(entry_address) => {
                        let a = base_address.duplicate();
                        (
                            GetCommitment::AwaitingFulfillmentLinks { base_address, entry_address },
                            CommitmentAction::ReadFulfillmentLinks(a, CommitmentLink::FulfilledBy),
                        )
                    },
                    Err(e) => (GetCommitment::Finished, CommitmentAction::Respond(Err(e))),
                }
            },
            (GetCommitment::AwaitingFulfillmentLinks { base_address, entry_address }, CommitmentEvent::FulfillmentLinksRead(res)) => {
                match res {
                    Ok(fulfillments) => (
                        GetCommitment::AwaitingEntry { base_address, fulfillments },
                        CommitmentAction::ReadEntry(entry_address),
                    ),
                    Err(e) => (GetCommitment::Finished, CommitmentAction::Respond(Err(e))),
                }
            },
            (GetCommitment::AwaitingEntry { base_address, fulfillments }, CommitmentEvent::EntryRead(res)) => {
                match res {
                    Ok(entry) => (
                        GetCommitment::Finished,
                        CommitmentAction::Respond(
                            Ok(CommitmentRecord { base_address, entry, fulfills: Some(fulfillments) }),
                        ),
                    ),
                    Err(e) => (GetCommitment::Finished, CommitmentAction::Respond(Err(e))),
                }
            },
            (state, _) => {
                proof {
                    assert(false);
                }
                (state, CommitmentAction::Respond(Err(ZomeApiError::FunctionNotImplemented)))
            },
        }
    }
}

// ---------------------------------------------------------------- create

/// Where the creation of a commitment stands.
pub enum CreateCommitment<E> {
    /// The record has been asked to be stored; the request's fulfillments are kept.
    AwaitingRecord { fulfills: Option<Vec<Address>> },
    /// The new commitment has been asked to be linked to its fulfillments.
    AwaitingLinks { base_address: Address, entry: E, fulfills: Option<Vec<Address>> },
    /// The request has been answered.
    Finished,
}

impl<E> CreateCommitment<E> {
    /// Whether the event answers the action that this state waits on.
    pub open spec fn awaits(self, event: CommitmentEvent<E>) -> bool {
        match self {
            CreateCommitment::AwaitingRecord { .. } => event is RecordCreated,
            CreateCommitment::AwaitingLinks { .. } => event is FulfillmentsLinked,
            CreateCommitment::Finished => false,
        }
    }

    /// The state and action that follow this state on `event`.
    pub open spec fn transition(self, event: CommitmentEvent<E>, next: CreateCommitment<E>, action: CommitmentAction<E>) -> bool {
        match self {
            CreateCommitment::AwaitingRecord { fulfills } => match event {
                CommitmentEvent::RecordCreated(Ok((base_address, entry))) => match fulfills {
                    Some(f) => {
                        &&& next matches CreateCommitment::AwaitingLinks { base_address: b, entry: en, fulfills: fl }
                            && b == base_address && en == entry && addresses_view(fl) == Some(f@)
                        &&& action matches CommitmentAction::LinkFulfillments(from, to) && from == base_address
                            && to@ == f@
                    },
                    None => next == CreateCommitment::<E>::Finished && responds_with(action, base_address, entry, None),
                },
                CommitmentEvent::RecordCreated(Err(e)) => next == CreateCommitment::<E>::Finished
                    && responds_with_error(action, e),
                _ => false,
            },
            CreateCommitment::AwaitingLinks { base_address, entry, fulfills } => match event {
                CommitmentEvent::FulfillmentsLinked => next == CreateCommitment::<E>::Finished
                    && responds_with(action, base_address, entry, addresses_view(fulfills)),
                _ => false,
            },
            CreateCommitment::Finished => false,
        }
    }

    /// Starts creating a commitment whose request lists the fulfillments
    /// `fulfills`: first the record is stored.
    pub fn start(fulfills: Option<Vec<Address>>) -> (r: (CreateCommitment<E>, CommitmentAction<E>))
        ensures
            r.0 == (CreateCommitment::<E>::AwaitingRecord { fulfills }),
            r.1 == CommitmentAction::<E>::CreateRecord(CommitmentEntryType::CommitmentBase, CommitmentEntryType::Commitment),
    {
        (
            CreateCommitment::AwaitingRecord { fulfills },
            CommitmentAction::CreateRecord(CommitmentEntryType::CommitmentBase, CommitmentEntryType::Commitment),
        )
    }

    /// Takes the DHT's answer to the last action: once the record is stored,
    /// the commitment is linked to the fulfillments the request lists, if it
    /// lists any, and the record is answered with them; a failed store
    /// answers with its error and links nothing.
    pub fn step(self, event: CommitmentEvent<E>) -> (r: (CreateCommitment<E>, CommitmentAction<E>))
        requires
            self.awaits(event),
        ensures
            self.transition(event, r.0, r.1),
    {
        match (self, event) {
            (CreateCommitment::AwaitingRecord { fulfills }, CommitmentEvent::RecordCreated(res)) => {
                match res {
                    Ok((base_address, entry)) => match &fulfills {
                        Some(f) => {
                            let to = copy_addresses(f);
                            let from = base_address.duplicate();
                            (
                                CreateCommitment::AwaitingLinks { base_address, entry, fulfills },
                                CommitmentAction::LinkFulfillments(from, to),
                            )
                        },
                        None => (
                            CreateCommitment::Finished,
                            CommitmentAction::Respond(Ok(CommitmentRecord { base_address, entry, fulfills })),
                        ),
                    },
                    Err(e) => (CreateCommitment::Finished, CommitmentAction::Respond(Err(e))),
                }
            },
            (CreateCommitment::AwaitingLinks { base_address, entry, fulfills }, CommitmentEvent::FulfillmentsLinked) => {
                (
                    CreateCommitment::Finished,
                    CommitmentAction::Respond(Ok(CommitmentRecord { base_address, entry, fulfills })),
                )
            },
            (state, _) => {
                proof {
                    assert(false);
                }
                (state, CommitmentAction::Respond(Err(ZomeApiError::FunctionNotImplemented)))
            },
        }
    }
}

// ---------------------------------------------------------------- update

/// Where an update of a commitment stands.
pub enum UpdateCommitment<E> {
    /// The base address's current entry address has been asked for.
    AwaitingEntryAddress { base_address: Address, fulfills: Option<Vec<Address>> },
    /// The previous entry has been asked for.
    AwaitingPrevious { base_address: Address, entry_address: Address, fulfills: Option<Vec<Address>> },
    /// The request's fields have been asked to be merged into the previous entry.
    AwaitingMerge { base_address: Address, entry_address: Address, fulfills: Option<Vec<Address>> },
    /// The merged entry has been asked to be written; `entry` is its copy.
    AwaitingWrite { base_address: Address, entry: E, fulfills: Option<Vec<Address>> },
    /// The request has been answered.
    Finished,
}

impl<E: Clone> UpdateCommitment<E> {
    /// Whether the event answers the action that this state waits on.
    pub open spec fn awaits(self, event: CommitmentEvent<E>) -> bool {
        match self {
            UpdateCommitment::AwaitingEntryAddress { .. } => event is EntryAddressRead,
            UpdateCommitment::AwaitingPrevious { .. } => event is EntryRead,
            UpdateCommitment::AwaitingMerge { .. } => event is UpdateMerged,
            UpdateCommitment::AwaitingWrite { .. } => event is EntryWritten,
            UpdateCommitment::Finished => false,
        }
    }

    /// The state and action that follow this state on `event`.
    pub open spec fn transition(self, event: CommitmentEvent<E>, next: UpdateCommitment<E>, action: CommitmentAction<E>) -> bool {
        match self {
            UpdateCommitment::AwaitingEntryAddress { base_address, fulfills } => match event {
                CommitmentEvent::EntryAddressRead(Ok(entry_address)) => next == (UpdateCommitment::<E>::AwaitingPrevious {
                    base_address,
                    entry_address,
                    fulfills,
                }) && action == CommitmentAction::<E>::ReadEntry(entry_address),
                CommitmentEvent::EntryAddressRead(Err(e)) => next == UpdateCommitment::<E>::Finished
                    && responds_with_error(action, e),
                _ => false,
            },
            UpdateCommitment::AwaitingPrevious { base_address, entry_address, fulfills } => match event {
                CommitmentEvent::EntryRead(Ok(previous)) => next == (UpdateCommitment::<E>::AwaitingMerge {
                    base_address,
                    entry_address,
                    fulfills,
                }) && action == CommitmentAction::<E>::MergeUpdate(previous),
                CommitmentEvent::EntryRead(Err(e)) => next == UpdateCommitment::<E>::Finished
                    && responds_with_error(action, e),
                _ => false,
            },
            UpdateCommitment::AwaitingMerge { base_address, entry_address, fulfills } => match event {
                CommitmentEvent::UpdateMerged(merged) => {
                    &&& next matches UpdateCommitment::AwaitingWrite { base_address: b, entry: copy, fulfills: f }
                        && b == base_address && f == fulfills && cloned::<E>(merged, copy)
                    &&& action == CommitmentAction::<E>::WriteEntry(merged, entry_address, CommitmentEntryType::Commitment)
                },
                _ => false,
            },
            UpdateCommitment::AwaitingWrite { base_address, entry, fulfills } => match event {
                CommitmentEvent::EntryWritten(Ok(_)) => next == UpdateCommitment::<E>::Finished
                    && responds_with(action, base_address, entry, addresses_view(fulfills)),
                CommitmentEvent::EntryWritten(Err(e)) => next == UpdateCommitment::<E>::Finished
                    && responds_with_error(action, e),
                _ => false,
            },
            UpdateCommitment::Finished => false,
        }
    }

    /// Starts updating the commitment whose base address is `base_address`,
    /// with a request that lists the fulfillments `fulfills`: first the
    /// current entry address is read.
    pub fn start(base_address: Address, fulfills: Option<Vec<Address>>) -> (r: (UpdateCommitment<E>, CommitmentAction<E>))
        ensures
            r.0 == (UpdateCommitment::<E>::AwaitingEntryAddress { base_address, fulfills }),
            r.1 == CommitmentAction::<E>::ReadEntryAddress(base_address),
    {
        let a = base_address.duplicate();
        (UpdateCommitment::AwaitingEntryAddress { base_address, fulfills }, CommitmentAction::ReadEntryAddress(a))
    }

    /// Takes the DHT's answer to the last action: the entry address is read,
    /// then the previous entry, the request is merged into it, the merged
    /// entry is written over the previous one, and a copy of it is answered
    /// with the request's fulfillments; the first failed read or write
    /// answers with its error.
    pub fn step(self, event: CommitmentEvent<E>) -> (r: (UpdateCommitment<E>, CommitmentAction<E>))
        requires
            self.awaits(event),
        ensures
            self.transition(event, r.0, r.1),
    {
        match (self, event) {
            (UpdateCommitment::AwaitingEntryAddress { base_address, fulfills }, CommitmentEvent::EntryAddressRead(res)) => {
                match res {
                    Ok(entry_address) => {
                        let a = entry_address.duplicate();
                        (
                            UpdateCommitment::AwaitingPrevious { base_address, entry_address, fulfills },
                            CommitmentAction::ReadEntry(a),
                        )
                    },
                    Err(e) => (UpdateCommitment::Finished, CommitmentAction::Respond(Err(e))),
                }
            },
            (UpdateCommitment::AwaitingPrevious { base_address, entry_address, fulfills }, CommitmentEvent::EntryRead(res)) => {
                match res {
                    Ok(previous) => (
                        UpdateCommitment::AwaitingMerge { base_address, entry_address, fulfills },
                        CommitmentAction::MergeUpdate(previous),
                    ),
                    Err(e) => (UpdateCommitment::Finished, CommitmentAction::Respond(Err(e))),
                }
            },
            (UpdateCommitment::AwaitingMerge { base_address, entry_address, fulfills }, CommitmentEvent::UpdateMerged(merged)) => {
                let copy = merged.clone();
                (
                    UpdateCommitment::AwaitingWrite { base_address, entry: copy, fulfills },
                    CommitmentAction::WriteEntry(merged, entry_address, CommitmentEntryType::Commitment),
                )
            },
            (UpdateCommitment::AwaitingWrite { base_address, entry, fulfills }, CommitmentEvent::EntryWritten(res)) => {
                match res {
                    Ok(_) => (
                        UpdateCommitment::Finished,
                        CommitmentAction::Respond(Ok(CommitmentRecord { base_address, entry, fulfills })),
                    ),
                    Err(e) => (UpdateCommitment::Finished, CommitmentAction::Respond(Err(e))),
                }
            },
            (state, _) => {
                proof {
                    assert(false);
                }
                (state, CommitmentAction::Respond(Err(ZomeApiError::FunctionNotImplemented)))
            },
        }
    }
}

// ---------------------------------------------------------------- laws

/// Whichever DHT step of a commitment read fails, the request ends and is
/// answered with the DHT's error.
pub proof fn lemma_get_commitment_failure_ends<E>(
    s: GetCommitment,
    event: CommitmentEvent<E>,
    next: GetCommitment,
    action: CommitmentAction<E>,
)
    requires
        s.transition(event, next, action),
        event.failure() is Some,
    ensures
        next == GetCommitment::Finished,
        responds_with_error(action, event.failure()->0),
{
}

/// Reading a commitment, where every read succeeds, reads the entry address
/// that the base address points to, then the base address's fulfillment
/// links, then the entry at that entry address, and answers with the base
/// address, that entry and those links.
pub proof fn lemma_get_commitment_run<E>(
    base_address: Address,
    entry_address: Address,
    links: Vec<Address>,
    entry: E,
    s1: GetCommitment,
    a1: CommitmentAction<E>,
    s2: GetCommitment,
    a2: CommitmentAction<E>,
    s3: GetCommitment,
    a3: CommitmentAction<E>,
)
    requires
        (GetCommitment::AwaitingEntryAddress { base_address }).transition(
            CommitmentEvent::EntryAddressRead(Ok(entry_address)),
            s1,
            a1,
        ),
        s1.transition(CommitmentEvent::FulfillmentLinksRead(Ok(links)), s2, a2),
        s2.transition(CommitmentEvent::EntryRead(Ok(entry)), s3, a3),
    ensures
        a1 == CommitmentAction::<E>::ReadFulfillmentLinks(base_address, CommitmentLink::FulfilledBy),
        a2 == CommitmentAction::<E>::ReadEntry(entry_address),
        responds_with(a3, base_address, entry, Some(links@)),
        s3 == GetCommitment::Finished,
{
}

/// Whichever DHT step of a commitment creation fails, the request ends and
/// is answered with the DHT's error.
pub proof fn lemma_create_commitment_failure_ends<E>(
    s: CreateCommitment<E>,
    event: CommitmentEvent<E>,
    next: CreateCommitment<E>,
    action: CommitmentAction<E>,
)
    requires
        s.transition(event, next, action),
        event.failure() is Some,
    ensures
        next == CreateCommitment::<E>::Finished,
        responds_with_error(action, event.failure()->0),
{
}

/// Creating a commitment whose request lists fulfillments: once the record
/// is stored, the new record is linked to exactly those fulfillments, and the
/// request is answered with the stored record and those fulfillments.
pub proof fn lemma_create_commitment_links_requested<E>(
    fulfills: Vec<Address>,
    base_address: Address,
    entry: E,
    s1: CreateCommitment<E>,
    a1: CommitmentAction<E>,
    s2: CreateCommitment<E>,
    a2: CommitmentAction<E>,
)
    requires
        (CreateCommitment::AwaitingRecord { fulfills: Some(fulfills) }).transition(
            CommitmentEvent::RecordCreated(Ok((base_address, entry))),
            s1,
            a1,
        ),
        s1.transition(CommitmentEvent::FulfillmentsLinked, s2, a2),
    ensures
        a1 matches CommitmentAction::LinkFulfillments(from, to) && from == base_address && to@ == fulfills@,
        responds_with(a2, base_address, entry, Some(fulfills@)),
        s2 == CreateCommitment::<E>::Finished,
{
}

/// Creating a commitment whose request lists no fulfillments links nothing:
/// the request is answered with the stored record as soon as it is stored.
pub proof fn lemma_create_commitment_without_fulfillments<E>(
    base_address: Address,
    entry: E,
    s1: CreateCommitment<E>,
    a1: CommitmentAction<E>,
)
    requires
        (CreateCommitment::AwaitingRecord { fulfills: None }).transition(
            CommitmentEvent::RecordCreated(Ok((base_address, entry))),
            s1,
            a1,
        ),
    ensures
        responds_with(a1, base_address, entry, None),
        s1 == CreateCommitment::<E>::Finished,
{
}

/// Whichever DHT step of a commitment update fails, the request ends and is
/// answered with the DHT's error.
pub proof fn lemma_update_commitment_failure_ends<E: Clone>(
    s: UpdateCommitment<E>,
    event: CommitmentEvent<E>,
    next: UpdateCommitment<E>,
    action: CommitmentAction<E>,
)
    requires
        s.transition(event, next, action),
        event.failure() is Some,
    ensures
        next == UpdateCommitment::<E>::Finished,
        responds_with_error(action, event.failure()->0),
{
}

/// Updating a commitment, where every step succeeds, reads the previous
/// entry at the address that the base address points to, writes the merged
/// entry over it at that same address, and answers with the base address, a
/// copy of the entry written and the request's fulfillments.
pub proof fn lemma_update_commitment_run<E: Clone>(
    base_address: Address,
    fulfills: Option<Vec<Address>>,
    entry_address: Address,
    previous: E,
    merged: E,
    written_at: Address,
    s1: UpdateCommitment<E>,
    a1: CommitmentAction<E>,
    s2: UpdateCommitment<E>,
    a2: CommitmentAction<E>,
    s3: UpdateCommitment<E>,
    a3: CommitmentAction<E>,
    s4: UpdateCommitment<E>,
    a4: CommitmentAction<E>,
)
    requires
        (UpdateCommitment::AwaitingEntryAddress { base_address, fulfills }).transition(
            CommitmentEvent::EntryAddressRead(Ok(entry_address)),
            s1,
            a1,
        ),
        s1.transition(CommitmentEvent::EntryRead(Ok(previous)), s2, a2),
        s2.transition(CommitmentEvent::UpdateMerged(merged), s3, a3),
        s3.transition(CommitmentEvent::EntryWritten(Ok(written_at)), s4, a4),
    ensures
        a1 == CommitmentAction::<E>::ReadEntry(entry_address),
        a2 == CommitmentAction::<E>::MergeUpdate(previous),
        a3 == CommitmentAction::<E>::WriteEntry(merged, entry_address, CommitmentEntryType::Commitment),
        a4 matches CommitmentAction::Respond(Ok(rec)) && rec.base_address == base_address && cloned::<E>(
            merged,
            rec.entry,
        ) && addresses_view(rec.fulfills) == addresses_view(fulfills),
        s4 == UpdateCommitment::<E>::Finished,
{
}

} // verus!
