//! Measurement units: the stored `Unit` entry, the response built from it,
//! and the unit query.
use vstd::prelude::*;
use crate::zome::{ZomeApiError, ZomeErrorView, keep_loaded, loaded_entries};

verus! {

/// The identifier of a unit record.
pub struct UnitId(pub String);

/// A unit as it is stored in the DHT.
pub struct Entry {
    pub label: String,
    pub symbol: String,
}

/// The fields of a unit as a zome call answers them.
pub struct Response {
    pub id: UnitId,
    pub label: String,
    pub symbol: String,
}

/// The answer to a unit request.
pub struct ResponseData {
    pub unit: Response,
}

/// The filters of a unit query.
pub struct QueryParams {}

/// The response that describes the unit stored as `e` under `id`.
pub open spec fn spec_construct_response(id: UnitId, e: Entry) -> ResponseData {
    ResponseData { unit: Response { id: id, label: e.label, symbol: e.symbol } }
}

/// The responses a query answers with for the records it found, in order:
/// those whose entry could not be read are left out.
pub open spec fn spec_unit_responses(found: Seq<(UnitId, Option<Entry>)>) -> Seq<ResponseData> {
    loaded_entries(found).map_values(|r: (UnitId, Entry)| spec_construct_response(r.0, r.1))
}

/// Builds the response for the unit stored as `e` under `id`.
pub fn construct_response(id: &UnitId, e: &Entry) -> (r: ResponseData)
    ensures
        r == spec_construct_response(*id, *e),
        r.unit.id == *id,
        r.unit.label == e.label,
        r.unit.symbol == e.symbol,
{
    ResponseData {
        unit: Response { id: UnitId(id.0.clone()), label: e.label.clone(), symbol: e.symbol.clone() },
    }
}

/// The response for a unit answers with the id it is stored under, and the
/// label and symbol of its entry.
pub proof fn lemma_response_describes_unit(id: UnitId, e: Entry)
    ensures
        spec_construct_response(id, e).unit.id == id,
        spec_construct_response(id, e).unit.id.0 == id.0,
        spec_construct_response(id, e).unit.label == e.label,
        spec_construct_response(id, e).unit.symbol == e.symbol,
{
}

/// Answers a create, read or update of a unit from what the DHT gave back:
/// the stored record's response, or the DHT's error unchanged.
pub fn unit_record_response(stored: Result<(UnitId, Entry), ZomeApiError>) -> (r: Result<ResponseData, ZomeApiError>)
    ensures
        match stored {
            Ok((id, e)) => r == Ok::<ResponseData, ZomeApiError>(spec_construct_response(id, e)),
            Err(err) => r == Err::<ResponseData, ZomeApiError>(err),
        },
{
    match stored {
        Ok((id, e)) => Ok(construct_response(&id, &e)),
        Err(err) => Err(err),
    }
}

/// The responses for the records a query found, in order, leaving out each
/// record whose entry could not be read.
pub fn unit_responses(found: Vec<(UnitId, Option<Entry>)>) -> (r: Vec<ResponseData>)
    ensures
        r@ == spec_unit_responses(found@),
{
    let loaded = keep_loaded(found);
    let ghost target = spec_unit_responses(found@);
    let mut out: Vec<ResponseData> = Vec::new();
    let n = loaded.len();
    for i in 0..n
        invariant
            n == loaded@.len(),
            loaded@ == loaded_entries(found@),
            target == loaded@.map_values(|r: (UnitId, Entry)| spec_construct_response(r.0, r.1)),
            out@ == target.take(i as int),
    {
        let resp = construct_response(&loaded[i].0, &loaded[i].1);
        out.push(resp);
        proof {
            assert(target.take(i + 1) =~= target.take(i as int).push(target[i as int]));
        }
    }
    proof {
        assert(target.take(n as int) =~= target);
    }
    out
}

/// The message of the error every unit query answers with.
pub open spec fn no_results_message() -> Seq<char> {
    "No results found"@
}

/// What a unit query with `params` answers: whatever the filters, the error
/// that no results were found.
pub open spec fn answers_unit_query(params: QueryParams, r: Result<Vec<ResponseData>, ZomeApiError>) -> bool {
    r matches Err(e) && e@ == ZomeErrorView::Internal(no_results_message())
}

/// Runs a unit query. No listing of all units is available, so the query
/// finds nothing and answers with an error. It reads nothing from the DHT.
pub fn handle_query_units(_params: &QueryParams) -> (r: Result<Vec<ResponseData>, ZomeApiError>)
    ensures
        answers_unit_query(*_params, r),
{
    let entries_result: Result<Vec<(UnitId, Option<Entry>)>, ZomeApiError> = Err(
        ZomeApiError::Internal("No results found".to_owned()),
    );
    match entries_result {
        Ok(entries) => Ok(unit_responses(entries)),
        Err(e) => Err(e),
    }
}

/// Answers a unit query: always the error that no results were found.
pub fn receive_query_units(params: QueryParams) -> (r: Result<Vec<ResponseData>, ZomeApiError>)
    ensures
        answers_unit_query(params, r),
{
    handle_query_units(&params)
}

/// Two unit queries answer alike, whatever their filters: both with an
/// error, and with the same error.
pub proof fn lemma_unit_query_ignores_params(
    p1: QueryParams,
    p2: QueryParams,
    r1: Result<Vec<ResponseData>, ZomeApiError>,
    r2: Result<Vec<ResponseData>, ZomeApiError>,
)
    requires
        answers_unit_query(p1, r1),
        answers_unit_query(p2, r2),
    ensures
        r1 is Err,
        r2 is Err,
        r1->Err_0@ == r2->Err_0@,
{
}

} // verus!
