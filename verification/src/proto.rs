//! The messages of the example service's gRPC interface.

use vstd::prelude::*;

verus! {

/// The identifier of a record, as text.
#[derive(Clone, Debug, PartialEq, Eq)]
pub struct Id {
    pub value: String,
}

impl View for Id {
    type V = Seq<char>;

    open spec fn view(&self) -> Seq<char> {
        self.value@
    }
}

/// A record as the interface carries it.
#[derive(Clone, Debug, PartialEq, Eq)]
pub struct Example {
    pub id: Option<Id>,
    pub contents: String,
}

/// The abstract value of an `Example`: the identifier's text, if any, and
/// the contents.
pub struct ExampleView {
    pub id: Option<Seq<char>>,
    pub contents: Seq<char>,
}

/// The abstract value of an optional identifier.
pub open spec fn id_view(id: Option<Id>) -> Option<Seq<char>> {
    match id {
        Some(i) => Some(i@),
        None => None,
    }
}

impl View for Example {
    type V = ExampleView;

    open spec fn view(&self) -> ExampleView {
        ExampleView { id: id_view(self.id), contents: self.contents@ }
    }
}

/// The abstract value of an optional record.
pub open spec fn record_view(record: Option<Example>) -> Option<ExampleView> {
    match record {
        Some(e) => Some(e@),
        None => None,
    }
}

/// Asks for the record with an identifier.
#[derive(Clone, Debug, PartialEq, Eq)]
pub struct FindExampleRequest {
    pub id: Option<Id>,
}

/// The record found.
#[derive(Clone, Debug, PartialEq, Eq)]
pub struct FindExampleResponse {
    pub record: Option<Example>,
}

/// Asks for a new record with the given contents.
#[derive(Clone, Debug, PartialEq, Eq)]
pub struct CreateExampleRequest {
    pub contents: String,
}

/// The record created.
#[derive(Clone, Debug, PartialEq, Eq)]
pub struct CreateExampleResponse {
    pub record: Option<Example>,
}

/// Asks to overwrite a record, found by its identifier.
#[derive(Clone, Debug, PartialEq, Eq)]
pub struct UpdateExampleRequest {
    pub record: Option<Example>,
}

/// The record as updated.
#[derive(Clone, Debug, PartialEq, Eq)]
pub struct UpdateExampleResponse {
    pub record: Option<Example>,
}

/// Asks for one page of the records: pages of `page_size` records
/// (0 asks for the default size), counted from page 0.
#[derive(Clone, Copy, Debug, PartialEq, Eq)]
pub struct GetExampleListRequest {
    pub page_size: u32,
    pub page: u32,
}

/// One page of records and the number of pages there are.
#[derive(Clone, Debug, PartialEq, Eq)]
pub struct GetExampleListResponse {
    pub records: Vec<Example>,
    pub total_pages: u32,
}

} // verus!
