//! The stored `Agreement` entry: built from a create request and merged with
//! update requests.
use vstd::prelude::*;
use crate::maybe_undefined::MaybeUndefined;

verus! {

/// A point in time, as sent by clients.
pub type Timestamp = String;

/// Fields a client sends to create an agreement.
pub struct CreateRequest {
    pub name: MaybeUndefined<String>,
    pub created: MaybeUndefined<Timestamp>,
    pub note: MaybeUndefined<String>,
}

/// Fields a client sends to update an agreement.
pub struct UpdateRequest {
    pub id: String,
    pub name: MaybeUndefined<String>,
    pub created: MaybeUndefined<Timestamp>,
    pub note: MaybeUndefined<String>,
}

/// The agreement as it is stored in the DHT.
#[derive(Debug, Clone)]
pub struct Entry {
    pub name: Option<String>,
    pub created: Option<Timestamp>,
    pub note: Option<String>,
}

/// The value a field has after an update: the update's value where one was
/// sent, the stored value otherwise.
pub open spec fn merged_field<T>(stored: Option<T>, update: MaybeUndefined<T>) -> Option<T> {
    match update {
        MaybeUndefined::Value(v) => Some(v),
        _ => stored,
    }
}

/// The entry a create request describes.
pub open spec fn spec_from_create(e: CreateRequest) -> Entry {
    Entry { name: e.name.to_option(), created: e.created.to_option(), note: e.note.to_option() }
}

impl Entry {
    /// The entry after `e` is applied to `self`.
    pub open spec fn spec_update_with(self, e: UpdateRequest) -> Entry {
        Entry {
            name: merged_field(self.name, e.name),
            created: merged_field(self.created, e.created),
            note: merged_field(self.note, e.note),
        }
    }
}

/// Picks the relevant fields of a create request into the entry to store.
impl From<CreateRequest> for Entry {
    fn from(e: CreateRequest) -> (r: Entry)
        ensures
            r.name == e.name.to_option(),
            r.created == e.created.to_option(),
            r.note == e.note.to_option(),
    {
        Entry { name: e.name.into_option(), created: e.created.into_option(), note: e.note.into_option() }
    }
}

impl vstd::std_specs::convert::FromSpecImpl<CreateRequest> for Entry {
    open spec fn obeys_from_spec() -> bool {
        true
    }

    open spec fn from_spec(e: CreateRequest) -> Entry {
        spec_from_create(e)
    }
}

/// A copy of a stored field.
fn copy_field(f: &Option<String>) -> (r: Option<String>)
    ensures
        r == *f,
{
    match f {
        Some(v) => Some(v.clone()),
        None => None,
    }
}

/// The field after an update: the update's value where one was sent, a copy
/// of the stored value otherwise.
fn merge_field(stored: &Option<String>, update: &MaybeUndefined<String>) -> (r: Option<String>)
    ensures
        r == merged_field(*stored, *update),
{
    if !update.is_some() {
        copy_field(stored)
    } else {
        match update {
            MaybeUndefined::Value(v) => Some(v.clone()),
            _ => None,
        }
    }
}

impl Entry {
    /// Handles an update by merging the newly provided fields into a copy of
    /// this entry. A field sent as `null` or left out keeps its stored value.
    pub fn update_with(&self, e: &UpdateRequest) -> (r: Entry)
        ensures
            r == self.spec_update_with(*e),
    {
        Entry {
            name: merge_field(&self.name, &e.name),
            created: merge_field(&self.created, &e.created),
            note: merge_field(&self.note, &e.note),
        }
    }
}

/// The entry built from a create request holds, in each field, the value
/// that the request sent for that same field, and nothing where the request
/// sent `null` or left the field out.
pub proof fn lemma_create_fields(c: CreateRequest)
    ensures
        spec_from_create(c).name == c.name.to_option(),
        spec_from_create(c).created == c.created.to_option(),
        spec_from_create(c).note == c.note.to_option(),
        c.name matches MaybeUndefined::Value(v) ==> spec_from_create(c).name == Some(v),
        c.created matches MaybeUndefined::Value(v) ==> spec_from_create(c).created == Some(v),
        c.note matches MaybeUndefined::Value(v) ==> spec_from_create(c).note == Some(v),
        !(c.name is Value) ==> spec_from_create(c).name is None,
        !(c.created is Value) ==> spec_from_create(c).created is None,
        !(c.note is Value) ==> spec_from_create(c).note is None,
{
}

/// An update that sends no field with a value leaves the entry as it was.
pub proof fn lemma_empty_update_keeps_entry(entry: Entry, e: UpdateRequest)
    requires
        !(e.name is Value),
        !(e.created is Value),
        !(e.note is Value),
    ensures
        entry.spec_update_with(e) == entry,
{
}

/// Applying the same update twice gives what applying it once gives.
pub proof fn lemma_update_idempotent(entry: Entry, e: UpdateRequest)
    ensures
        entry.spec_update_with(e).spec_update_with(e) == entry.spec_update_with(e),
{
}

/// After an update, every field sent with a value holds that value, whatever
/// the entry held before; every other field holds its stored value.
pub proof fn lemma_update_sets_given_fields(entry: Entry, e: UpdateRequest)
    ensures
        entry.spec_update_with(e).name == (if e.name is Value { e.name.to_option() } else { entry.name }),
        entry.spec_update_with(e).created == (if e.created is Value { e.created.to_option() } else { entry.created }),
        entry.spec_update_with(e).note == (if e.note is Value { e.note.to_option() } else { entry.note }),
{
}

/// Two updates in a row act as one update in which the later request's given
/// fields win over the earlier one's.
pub proof fn lemma_updates_compose(entry: Entry, first: UpdateRequest, second: UpdateRequest)
    ensures
        entry.spec_update_with(first).spec_update_with(second) == entry.spec_update_with(
            UpdateRequest {
                id: second.id,
                name: if second.name is Value { second.name } else { first.name },
                created: if second.created is Value { second.created } else { first.created },
                note: if second.note is Value { second.note } else { first.note },
            },
        ),
{
}

/// Updating an entry built from a create request with an update that sends
/// every field with a value gives the entry that update describes, whatever
/// was created.
pub proof fn lemma_full_update_overrides_create(c: CreateRequest, e: UpdateRequest)
    requires
        e.name is Value,
        e.created is Value,
        e.note is Value,
    ensures
        spec_from_create(c).spec_update_with(e) == (Entry {
            name: e.name.to_option(),
            created: e.created.to_option(),
            note: e.note.to_option(),
        }),
{
}

} // verus!
