use holo_rea::agreement::{CreateRequest, Entry, UpdateRequest};
use holo_rea::maybe_undefined::MaybeUndefined;
use holo_rea::unit::{self, QueryParams, UnitId};
use holo_rea::zome::{keep_loaded, Address, ZomeApiError};

fn s(v: &str) -> String {
    v.to_string()
}

fn stored() -> Entry {
    Entry { name: Some(s("old name")), created: Some(s("2019-01-01")), note: Some(s("old note")) }
}

#[test]
fn agreement_entry_from_create_request() {
    let e = Entry::from(CreateRequest {
        name: MaybeUndefined::Value(s("lease")),
        created: MaybeUndefined::Null,
        note: MaybeUndefined::Undefined,
    });
    assert_eq!(e.name, Some(s("lease")));
    assert_eq!(e.created, None);
    assert_eq!(e.note, None);
}

#[test]
fn agreement_update_replaces_given_fields_only() {
    let e = stored().update_with(&UpdateRequest {
        id: s("agreement-1"),
        name: MaybeUndefined::Value(s("new name")),
        created: MaybeUndefined::Undefined,
        note: MaybeUndefined::Null,
    });
    assert_eq!(e.name, Some(s("new name")));
    assert_eq!(e.created, Some(s("2019-01-01")));
    // a field sent as null keeps its stored value
    assert_eq!(e.note, Some(s("old note")));
}

#[test]
fn agreement_empty_update_keeps_entry() {
    let before = stored();
    let after = before.update_with(&UpdateRequest {
        id: s("agreement-1"),
        name: MaybeUndefined::Undefined,
        created: MaybeUndefined::Null,
        note: MaybeUndefined::Undefined,
    });
    assert_eq!(after.name, before.name);
    assert_eq!(after.created, before.created);
    assert_eq!(after.note, before.note);
}

#[test]
fn agreement_update_twice_same_as_once() {
    let req = UpdateRequest {
        id: s("agreement-1"),
        name: MaybeUndefined::Undefined,
        created: MaybeUndefined::Value(s("2020-02-02")),
        note: MaybeUndefined::Value(s("note")),
    };
    let once = stored().update_with(&req);
    let twice = once.update_with(&req);
    assert_eq!(once.name, twice.name);
    assert_eq!(once.created, twice.created);
    assert_eq!(once.note, twice.note);
    assert_eq!(twice.created, Some(s("2020-02-02")));
}

#[test]
fn agreement_later_update_wins() {
    let first = UpdateRequest {
        id: s("a"),
        name: MaybeUndefined::Value(s("first")),
        created: MaybeUndefined::Value(s("t1")),
        note: MaybeUndefined::Undefined,
    };
    let second = UpdateRequest {
        id: s("a"),
        name: MaybeUndefined::Value(s("second")),
        created: MaybeUndefined::Undefined,
        note: MaybeUndefined::Undefined,
    };
    let e = stored().update_with(&first).update_with(&second);
    assert_eq!(e.name, Some(s("second")));
    assert_eq!(e.created, Some(s("t1")));
    assert_eq!(e.note, Some(s("old note")));
}

#[test]
fn unit_response_copies_fields() {
    let r = unit::construct_response(
        &UnitId(s("kg")),
        &unit::Entry { label: s("kilogram"), symbol: s("kg") },
    );
    assert_eq!(r.unit.id.0, s("kg"));
    assert_eq!(r.unit.label, s("kilogram"));
    assert_eq!(r.unit.symbol, s("kg"));
}

#[test]
fn unit_record_response_passes_error() {
    match unit::unit_record_response(Err(ZomeApiError::HashNotFound)) {
        Err(ZomeApiError::HashNotFound) => {}
        _ => panic!("expected the DHT's error"),
    }
    match unit::unit_record_response(Ok((UnitId(s("m")), unit::Entry { label: s("metre"), symbol: s("m") }))) {
        Ok(r) => {
            assert_eq!(r.unit.id.0, s("m"));
            assert_eq!(r.unit.label, s("metre"));
        }
        Err(_) => panic!("expected a response"),
    }
}

#[test]
fn unit_query_finds_nothing() {
    match unit::receive_query_units(QueryParams {}) {
        Err(ZomeApiError::Internal(msg)) => assert_eq!(msg, s("No results found")),
        _ => panic!("expected the no-results error"),
    }
}

#[test]
fn unit_query_same_for_any_params() {
    let a = unit::handle_query_units(&QueryParams {});
    let b = unit::receive_query_units(QueryParams {});
    match (a, b) {
        (Err(ZomeApiError::Internal(m1)), Err(ZomeApiError::Internal(m2))) => assert_eq!(m1, m2),
        _ => panic!("expected the same error"),
    }
}

#[test]
fn agreement_entry_clone_and_debug() {
    let e = stored();
    let c = e.clone();
    assert_eq!(c.name, e.name);
    assert!(format!("{:?}", c).contains("old note"));
}

#[test]
fn unit_responses_skip_missing_entries() {
    let found = vec![
        (UnitId(s("kg")), Some(unit::Entry { label: s("kilogram"), symbol: s("kg") })),
        (UnitId(s("x")), None),
        (UnitId(s("m")), Some(unit::Entry { label: s("metre"), symbol: s("m") })),
    ];
    let r = unit::unit_responses(found);
    assert_eq!(r.len(), 2);
    assert_eq!(r[0].unit.id.0, s("kg"));
    assert_eq!(r[1].unit.label, s("metre"));
}

#[test]
fn keep_loaded_keeps_order() {
    let v = vec![
        (Address(s("a")), Some(1u32)),
        (Address(s("b")), None),
        (Address(s("c")), Some(3u32)),
        (Address(s("d")), None),
    ];
    let r = keep_loaded(v);
    assert_eq!(r.len(), 2);
    assert_eq!(r[0].0 .0, s("a"));
    assert_eq!(r[0].1, 1);
    assert_eq!(r[1].0 .0, s("c"));
    assert_eq!(r[1].1, 3);
    let empty: Vec<(Address, Option<u32>)> = vec![(Address(s("a")), None)];
    assert!(keep_loaded(empty).is_empty());
}
