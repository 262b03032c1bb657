use holo_rea::commitment::{
    CommitmentAction, CommitmentEntryType, CommitmentEvent, CommitmentLink, CreateCommitment, GetCommitment,
    UpdateCommitment, COMMITMENT_BASE_ENTRY_TYPE, COMMITMENT_ENTRY_TYPE, LINK_TAG_INITIAL_ENTRY,
    LINK_TYPE_INITIAL_ENTRY,
};
use holo_rea::fulfillment::{
    fulfillment_query_link, select_fulfillments, BridgedDna, Capability, CreateFulfillment, FulfillmentAction,
    FulfillmentEntryType, FulfillmentEvent, FulfillmentLink, RemoteCall,
};
use holo_rea::proposal::{self, ProposalEntryType, ProposalLinkType, Sharing, ValidationPackage};
use holo_rea::zome::{Address, ZomeApiError};

fn a(v: &str) -> Address {
    Address(v.to_string())
}

#[test]
fn get_commitment_reads_in_order() {
    let (s, act) = GetCommitment::start::<String>(a("base"));
    match act {
        CommitmentAction::ReadEntryAddress(x) => assert_eq!(x.0, "base"),
        _ => panic!("expected the entry address to be read first"),
    }
    let (s, act) = s.step::<String>(CommitmentEvent::EntryAddressRead(Ok(a("entry"))));
    match act {
        CommitmentAction::ReadFulfillmentLinks(x, CommitmentLink::FulfilledBy) => assert_eq!(x.0, "base"),
        _ => panic!("expected the links to be read"),
    }
    let (s, act) = s.step::<String>(CommitmentEvent::FulfillmentLinksRead(Ok(vec![a("f1"), a("f2")])));
    match act {
        CommitmentAction::ReadEntry(x) => assert_eq!(x.0, "entry"),
        _ => panic!("expected the entry to be read"),
    }
    let (s, act) = s.step(CommitmentEvent::EntryRead(Ok("commitment".to_string())));
    assert!(matches!(s, GetCommitment::Finished));
    match act {
        CommitmentAction::Respond(Ok(rec)) => {
            assert_eq!(rec.base_address.0, "base");
            assert_eq!(rec.entry, "commitment");
            let f = rec.fulfills.expect("links are answered");
            assert_eq!(f.len(), 2);
            assert_eq!(f[1].0, "f2");
        }
        _ => panic!("expected a record"),
    }
}

#[test]
fn get_commitment_stops_on_failed_read() {
    let (s, _) = GetCommitment::start::<String>(a("base"));
    let (s, act) = s.step::<String>(CommitmentEvent::EntryAddressRead(Err(ZomeApiError::HashNotFound)));
    assert!(matches!(s, GetCommitment::Finished));
    assert!(matches!(act, CommitmentAction::Respond(Err(ZomeApiError::HashNotFound))));
}

#[test]
fn create_commitment_links_requested_fulfillments() {
    let (s, act) = CreateCommitment::<String>::start(Some(vec![a("f1")]));
    assert!(matches!(
        act,
        CommitmentAction::CreateRecord(CommitmentEntryType::CommitmentBase, CommitmentEntryType::Commitment)
    ));
    let (s, act) = s.step(CommitmentEvent::RecordCreated(Ok((a("new"), "c".to_string()))));
    match act {
        CommitmentAction::LinkFulfillments(from, to) => {
            assert_eq!(from.0, "new");
            assert_eq!(to.len(), 1);
            assert_eq!(to[0].0, "f1");
        }
        _ => panic!("expected the fulfillments to be linked"),
    }
    let (s, act) = s.step(CommitmentEvent::FulfillmentsLinked);
    assert!(matches!(s, CreateCommitment::Finished));
    match act {
        CommitmentAction::Respond(Ok(rec)) => {
            assert_eq!(rec.base_address.0, "new");
            assert_eq!(rec.entry, "c");
            assert_eq!(rec.fulfills.expect("requested fulfillments")[0].0, "f1");
        }
        _ => panic!("expected a record"),
    }
}

#[test]
fn create_commitment_without_fulfillments_links_nothing() {
    let (s, _) = CreateCommitment::<String>::start(None);
    let (s, act) = s.step(CommitmentEvent::RecordCreated(Ok((a("new"), "c".to_string()))));
    assert!(matches!(s, CreateCommitment::Finished));
    match act {
        CommitmentAction::Respond(Ok(rec)) => assert!(rec.fulfills.is_none()),
        _ => panic!("expected a record"),
    }
}

#[test]
fn create_commitment_failure_links_nothing() {
    let (s, _) = CreateCommitment::<String>::start(Some(vec![a("f1")]));
    let (s, act) = s.step(CommitmentEvent::RecordCreated(Err(ZomeApiError::Timeout)));
    assert!(matches!(s, CreateCommitment::Finished));
    assert!(matches!(act, CommitmentAction::Respond(Err(ZomeApiError::Timeout))));
}

#[test]
fn update_commitment_writes_merged_entry() {
    let (s, act) = UpdateCommitment::<String>::start(a("base"), None);
    assert!(matches!(act, CommitmentAction::ReadEntryAddress(ref x) if x.0 == "base"));
    let (s, act) = s.step(CommitmentEvent::EntryAddressRead(Ok(a("entry"))));
    assert!(matches!(act, CommitmentAction::ReadEntry(ref x) if x.0 == "entry"));
    let (s, act) = s.step(CommitmentEvent::EntryRead(Ok("previous".to_string())));
    match act {
        CommitmentAction::MergeUpdate(prev) => assert_eq!(prev, "previous"),
        _ => panic!("expected a merge"),
    }
    let (s, act) = s.step(CommitmentEvent::UpdateMerged("merged".to_string()));
    match act {
        CommitmentAction::WriteEntry(e, at, CommitmentEntryType::Commitment) => {
            assert_eq!(e, "merged");
            assert_eq!(at.0, "entry");
        }
        _ => panic!("expected a write"),
    }
    let (s, act) = s.step(CommitmentEvent::EntryWritten(Ok(a("entry2"))));
    assert!(matches!(s, UpdateCommitment::Finished));
    match act {
        CommitmentAction::Respond(Ok(rec)) => {
            assert_eq!(rec.base_address.0, "base");
            assert_eq!(rec.entry, "merged");
            assert!(rec.fulfills.is_none());
        }
        _ => panic!("expected a record"),
    }
}

#[test]
fn update_commitment_failed_write_answers_error() {
    let (s, _) = UpdateCommitment::<String>::start(a("base"), None);
    let (s, _) = s.step(CommitmentEvent::EntryAddressRead(Ok(a("entry"))));
    let (s, _) = s.step(CommitmentEvent::EntryRead(Ok("previous".to_string())));
    let (s, _) = s.step(CommitmentEvent::UpdateMerged("merged".to_string()));
    let (s, act) = s.step(CommitmentEvent::EntryWritten(Err(ZomeApiError::ValidationFailed("bad".to_string()))));
    assert!(matches!(s, UpdateCommitment::Finished));
    match act {
        CommitmentAction::Respond(Err(ZomeApiError::ValidationFailed(m))) => assert_eq!(m, "bad"),
        _ => panic!("expected the write's error"),
    }
}

#[test]
fn create_fulfillment_links_then_notifies() {
    let (s, act) = CreateFulfillment::<u32>::start(a("event"));
    assert!(matches!(
        act,
        FulfillmentAction::CreateRecord {
            base_type: FulfillmentEntryType::FulfillmentBase,
            entry_type: FulfillmentEntryType::Fulfillment
        }
    ));
    let (s, act) = s.step(FulfillmentEvent::RecordCreated(Ok((a("ful"), 7))));
    match act {
        FulfillmentAction::LinkToEvent { fulfillment, event, forward, inverse } => {
            assert_eq!(fulfillment.0, "ful");
            assert_eq!(event.0, "event");
            assert!(matches!(forward, FulfillmentLink::FulfillmentFulfilledBy));
            assert!(matches!(inverse, FulfillmentLink::EventFulfills));
        }
        _ => panic!("expected a link"),
    }
    let (s, act) = s.step(FulfillmentEvent::Linked);
    match act {
        FulfillmentAction::NotifyPlanning { dna, capability, call } => {
            assert!(matches!(dna, BridgedDna::Planning));
            assert!(matches!(capability, Capability::Public));
            assert!(matches!(call, RemoteCall::CommitmentCreateFulfillment));
            assert_eq!(call.zome_name(), "commitment");
            assert_eq!(call.function_name(), "create_fulfillment");
        }
        _ => panic!("expected the planning DNA to be called"),
    }
    let (s, act) = s.step(FulfillmentEvent::PlanningNotified);
    assert!(matches!(s, CreateFulfillment::Finished));
    match act {
        FulfillmentAction::Respond(Ok((addr, e))) => {
            assert_eq!(addr.0, "ful");
            assert_eq!(e, 7);
        }
        _ => panic!("expected the record"),
    }
}

#[test]
fn create_fulfillment_failure_answers_error() {
    let (s, _) = CreateFulfillment::<u32>::start(a("event"));
    let (s, act) = s.step(FulfillmentEvent::RecordCreated(Err(ZomeApiError::Internal("x".to_string()))));
    assert!(matches!(s, CreateFulfillment::Finished));
    assert!(matches!(act, FulfillmentAction::Respond(Err(ZomeApiError::Internal(_)))));
}

#[test]
fn fulfillment_query_selection() {
    let r = select_fulfillments(Ok(vec![(a("f1"), None), (a("f2"), Some(2u8))]));
    match r {
        Ok(v) => {
            assert_eq!(v.len(), 1);
            assert_eq!(v[0].0 .0, "f2");
            assert_eq!(v[0].1, 2);
        }
        Err(_) => panic!("expected records"),
    }
    match select_fulfillments::<u8>(Err(ZomeApiError::HashNotFound)) {
        Err(ZomeApiError::Internal(m)) => assert_eq!(m, "could not load linked addresses"),
        _ => panic!("expected the links error"),
    }
}

#[test]
fn proposal_entry_definitions() {
    let d = proposal::entry_def();
    assert!(matches!(d.name, ProposalEntryType::Proposal));
    assert!(matches!(d.sharing, Sharing::Public));
    assert!(matches!(d.validation_package, ValidationPackage::Entry));
    assert_eq!(d.description, "Published requests or offers, sometimes with what is expected in return.");
    assert!(d.links.is_empty());
    let b = proposal::base_entry_def();
    assert!(matches!(b.name, ProposalEntryType::ProposalBase));
    assert_eq!(b.description, "Base anchor for initial proposal addresses to provide lookup functionality");
    assert_eq!(b.links.len(), 1);
    assert!(matches!(b.links[0].target, ProposalEntryType::Proposal));
    assert!(matches!(b.links[0].link_type, ProposalLinkType::InitialEntry));
    assert!(proposal::validate(&42u8).is_ok());
}

#[test]
fn commitment_entry_type_names() {
    assert_eq!(COMMITMENT_BASE_ENTRY_TYPE, "vf_commitment_base");
    assert_eq!(COMMITMENT_ENTRY_TYPE, "vf_commitment");
    assert_eq!(LINK_TYPE_INITIAL_ENTRY, "record_initial_entry");
    assert_eq!(LINK_TAG_INITIAL_ENTRY, "record_initial_entry");
    assert_eq!(CommitmentEntryType::CommitmentBase.name(), "vf_commitment_base");
    assert_eq!(CommitmentEntryType::Commitment.name(), "vf_commitment");
}

#[test]
fn fulfillment_query_reads_event_links() {
    assert!(matches!(fulfillment_query_link(), FulfillmentLink::EventFulfills));
}
