//! The decisions of the example service's calls. Each call reads a request,
//! asks the database for one thing, and answers from what came back; the
//! functions here compute what to ask from the request, and the answer from
//! the database's outcome.

use vstd::prelude::*;
use crate::conversion::{ConvertFrom, ConvertTo, active_of_example, example_of_model, uuid_of_id};
use crate::entities::{ActiveValue, DbErr, Page};
use crate::entities::example::{ActiveModel, ActiveModelView, Model, set_all};
use crate::ids::{is_random_uuid, new_random_uuid, uuid_hyphenated, uuid_parse};
use crate::persistence::{DEFAULT_PAGE_SIZE, PageQuery, effective_page_size, example_list_query};
use crate::proto::{
    CreateExampleRequest, CreateExampleResponse, Example, FindExampleRequest,
    FindExampleResponse, GetExampleListRequest, GetExampleListResponse, UpdateExampleRequest,
    UpdateExampleResponse, id_view, record_view,
};
use crate::status::{Code, Status, StatusView, result_view, status_of};

verus! {

broadcast use vstd::string::to_string_from_display_ensures_for_str;

/// The message for a lookup that found nothing.
pub open spec fn record_not_found_message() -> Seq<char> {
    "Record not found"@
}

/// The message for a failed lookup or update.
pub open spec fn unexpected_error_message() -> Seq<char> {
    "Unexpected error"@
}

/// The message for a failed creation.
pub open spec fn create_failed_message() -> Seq<char> {
    "Unexpected Error"@
}

/// The message for a failed listing.
pub open spec fn list_failed_message() -> Seq<char> {
    "Unknown Error"@
}

/// The status that a database error becomes in a lookup or an update: a
/// missing record is reported with the database's message, anything else
/// as an internal error.
pub open spec fn db_error_status(e: DbErr) -> StatusView {
    match e {
        DbErr::RecordNotFound(message) => status_of(Code::NotFound, message@),
        DbErr::Other(_) => status_of(Code::Internal, unexpected_error_message()),
    }
}

/// The identifier that a lookup asks the database for.
pub fn find_example_id(request: FindExampleRequest) -> (r: Result<u128, Status>)
    ensures
        result_view(r) == uuid_of_id(id_view(request.id)),
        forall|u: u128|
            id_view(request.id) == Some(#[trigger] uuid_hyphenated(u)) ==> r == Ok::<u128, Status>(u),
        r is Ok <==> (request.id is Some && uuid_parse(request.id->0@) is Some),
        r is Ok ==> uuid_parse(request.id->0@) == Some(r->Ok_0),
        r is Err ==> r->Err_0.code == Code::InvalidArgument,
{
    request.id.convert_to()
}

/// The answer to a lookup, from what the database gave: the record found,
/// or not-found (for no record, or the database's own not-found error), or
/// an internal error.
pub fn find_example_response(outcome: Result<Option<Model>, DbErr>) -> (r: Result<FindExampleResponse, Status>)
    ensures
        match outcome {
            Ok(Some(m)) => r is Ok && record_view(r->Ok_0.record) == Some(example_of_model(m@)),
            Ok(None) => r is Err && r->Err_0@ == status_of(Code::NotFound, record_not_found_message()),
            Err(e) => r is Err && r->Err_0@ == db_error_status(e),
        },
{
    match outcome {
        Ok(found) => match found {
            None => Err(Status::not_found("Record not found".to_string())),
            Some(model) => Ok(FindExampleResponse { record: Some(Example::convert_from(model)) }),
        },
        Err(err) => match err {
            DbErr::RecordNotFound(message) => Err(Status::not_found(message)),
            DbErr::Other(_) => Err(Status::internal("Unexpected error".to_string())),
        },
    }
}

/// The record that a creation writes, given its new identifier: both
/// columns assigned.
pub fn new_example_record(id: u128, contents: String) -> (a: ActiveModel)
    ensures
        a@ == set_all(id, contents@),
{
    ActiveModel { id: ActiveValue::Assigned(id), contents: ActiveValue::Assigned(contents) }
}

/// The record that a creation writes: a fresh random UUID and the
/// requested contents.
pub fn create_example_record(request: CreateExampleRequest) -> (a: ActiveModel)
    ensures
        exists|u: u128| is_random_uuid(u) && a@ == set_all(u, request.contents@),
{
    let id = new_random_uuid();
    new_example_record(id, request.contents)
}

/// The answer to a creation: the record written, or an internal error.
pub fn create_example_response(outcome: Result<Model, DbErr>) -> (r: Result<CreateExampleResponse, Status>)
    ensures
        match outcome {
            Ok(m) => r is Ok && record_view(r->Ok_0.record) == Some(example_of_model(m@)),
            Err(_) => r is Err && r->Err_0@ == status_of(Code::Internal, create_failed_message()),
        },
{
    match outcome {
        Ok(entity) => Ok(CreateExampleResponse { record: Some(Example::convert_from(entity)) }),
        Err(_) => Err(Status::internal("Unexpected Error".to_string())),
    }
}

/// The record that an update writes: the requested record with both
/// columns assigned, or the status for an identifier that is missing or not
/// a UUID. A request without a record is refused by its `requires`.
pub fn update_example_record(request: UpdateExampleRequest) -> (r: Result<ActiveModel, Status>)
    requires
        request.record is Some,
    ensures
        result_view(r) == active_of_example(request.record->0@),
        forall|u: u128| request.record->0@.id == Some(#[trigger] uuid_hyphenated(u)) ==>
            r is Ok && r->Ok_0@ == set_all(u, request.record->0@.contents),
        forall|u: u128| request.record->0.id is Some && uuid_parse(request.record->0.id->0@) == Some(u) ==>
            r is Ok && r->Ok_0@ == set_all(u, request.record->0@.contents),
        r is Ok ==> request.record->0.id is Some && uuid_parse(request.record->0.id->0@) is Some,
        r is Err ==> r->Err_0.code == Code::InvalidArgument,
{
    let record = request.record.unwrap();
    record.convert_to()
}

/// The answer to an update: the record as written, or not-found (with the
/// database's message), or an internal error.
pub fn update_example_response(outcome: Result<Model, DbErr>) -> (r: Result<UpdateExampleResponse, Status>)
    ensures
        match outcome {
            Ok(m) => r is Ok && record_view(r->Ok_0.record) == Some(example_of_model(m@)),
            Err(e) => r is Err && r->Err_0@ == db_error_status(e),
        },
{
    match outcome {
        Ok(entity) => Ok(UpdateExampleResponse { record: Some(Example::convert_from(entity)) }),
        Err(err) => match err {
            DbErr::RecordNotFound(message) => Err(Status::not_found(message)),
            DbErr::Other(_) => Err(Status::internal("Unexpected error".to_string())),
        },
    }
}

/// The page that a listing asks the database for.
pub fn get_example_list_query(request: GetExampleListRequest) -> (q: PageQuery)
    ensures
        q.page_size == effective_page_size(request.page_size as usize),
        q.page == request.page as usize,
        q.page_size > 0,
        request.page_size > 0 ==> q.page_size == request.page_size as usize,
        request.page_size == 0 ==> q.page_size == DEFAULT_PAGE_SIZE,
{
    example_list_query(request.page_size as usize, request.page as usize)
}

/// The answer to a listing: the page's records as messages, in their order,
/// with the number of pages (taken modulo 2^32, as the message holds 32
/// bits), or an internal error.
pub fn get_example_list_response(outcome: Result<Page<Model>, DbErr>) -> (r: Result<GetExampleListResponse, Status>)
    ensures
        match outcome {
            Ok(page) => {
                &&& r is Ok
                &&& r->Ok_0.records@.len() == page.records@.len()
                &&& forall|i: int| 0 <= i < page.records@.len() ==>
                    #[trigger] r->Ok_0.records@[i]@ == example_of_model(page.records@[i]@)
                &&& r->Ok_0.total_pages == page.total_pages % 0x1_0000_0000
            },
            Err(_) => r is Err && r->Err_0@ == status_of(Code::Internal, list_failed_message()),
        },
{
    match outcome {
        Ok(page) => {
            let total_pages = page.total_pages;
            let models = page.records;
            let ghost input = models@;
            let mut records: Vec<Example> = Vec::new();
            for model in it: models.into_iter()
                invariant
                    it.seq() == input,
                    records@.len() == it.index(),
                    forall|i: int| 0 <= i < it.index() ==>
                        #[trigger] records@[i]@ == example_of_model(input[i]@),
            {
                records.push(Example::convert_from(model));
            }
            let pages: u32 = total_pages as u32;
            assert(pages == total_pages % 0x1_0000_0000) by (bit_vector)
                requires
                    pages == total_pages as u32;
            Ok(GetExampleListResponse { records, total_pages: pages })
        },
        Err(_) => Err(Status::internal("Unknown Error".to_string())),
    }
}

} // verus!
