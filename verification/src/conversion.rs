//! Conversions between the interface's messages and the stored records.

use vstd::prelude::*;
use crate::entities::ActiveValue;
use crate::entities::example::{ActiveModel, ActiveModelView, Model, ModelView, set_all};
use crate::ids::{lemma_uuid_hyphenated_injective, parse_uuid, uuid_hyphenated, uuid_parse, uuid_to_string};
use crate::proto::{Example, ExampleView, Id, id_view};
use crate::status::{Code, Status, StatusView, result_view, status_of};

verus! {

broadcast use vstd::string::to_string_from_display_ensures_for_str;

/// Conversion of a message into a stored value, which can be refused.
pub trait ConvertTo<T>: Sized {
    fn convert_to(self) -> Result<T, Status>;
}

/// Conversion of a stored value into a message, which always succeeds.
pub trait ConvertFrom<T>: Sized {
    fn convert_from(value: T) -> Self;
}

/// The message for a missing identifier.
pub open spec fn id_required_message() -> Seq<char> {
    "Id is required"@
}

/// The message for an identifier that is not a UUID.
pub open spec fn id_invalid_message() -> Seq<char> {
    "Id was not set to a valid UUID"@
}

/// The message that a stored record becomes: its UUID in hyphenated text,
/// and its contents.
pub open spec fn example_of_model(m: ModelView) -> ExampleView {
    ExampleView { id: Some(uuid_hyphenated(m.id)), contents: m.contents }
}

/// The UUID of an identifier, given what parsing its text gave.
pub open spec fn uuid_of_parsed(parsed: Option<u128>) -> Result<u128, StatusView> {
    match parsed {
        Some(u) => Ok(u),
        None => Err(status_of(Code::InvalidArgument, id_invalid_message())),
    }
}

/// The UUID of an optional identifier.
pub open spec fn uuid_of_id(id: Option<Seq<char>>) -> Result<u128, StatusView> {
    match id {
        None => Err(status_of(Code::InvalidArgument, id_required_message())),
        Some(text) => uuid_of_parsed(uuid_parse(text)),
    }
}

/// The record to write that a message becomes: both columns assigned.
pub open spec fn active_of_example(e: ExampleView) -> Result<ActiveModelView, StatusView> {
    match uuid_of_id(e.id) {
        Ok(u) => Ok(set_all(u, e.contents)),
        Err(s) => Err(s),
    }
}

/// An identifier converts to a UUID exactly when the `uuid` crate parses its
/// text, and then to the UUID parsed; every refusal is an invalid argument,
/// and a missing identifier is refused.
pub proof fn lemma_id_converts_iff_it_parses(id: Option<Seq<char>>)
    ensures
        id is None ==> uuid_of_id(id) is Err,
        id matches Some(text) ==> (uuid_of_id(id) is Ok <==> uuid_parse(text) is Some),
        id matches Some(text) ==> forall|u: u128| uuid_parse(text) == Some(u) ==> uuid_of_id(id) == Ok::<u128, StatusView>(u),
        uuid_of_id(id) is Ok ==> id is Some && uuid_parse(id->0) == Some(uuid_of_id(id)->Ok_0),
        uuid_of_id(id) is Err ==> uuid_of_id(id)->Err_0.code == Code::InvalidArgument,
{
}

/// A message converts to a record to write exactly when its identifier
/// converts: every text that the `uuid` crate parses to `u` (in any of the
/// forms it reads) gives the record with key `u` and the message's contents,
/// both columns assigned; any other message is refused as an invalid
/// argument.
pub proof fn lemma_message_converts_iff_id_parses(e: ExampleView)
    ensures
        e.id matches Some(text) ==> forall|u: u128| uuid_parse(text) == Some(u) ==>
            active_of_example(e) == Ok::<ActiveModelView, StatusView>(set_all(u, e.contents)),
        active_of_example(e) is Ok ==> e.id is Some && uuid_parse(e.id->0) is Some
            && active_of_example(e)->Ok_0 == set_all(uuid_parse(e.id->0)->0, e.contents),
        active_of_example(e) is Err ==> active_of_example(e)->Err_0.code == Code::InvalidArgument,
{
}

/// Records with different keys become messages with different identifiers:
/// a message's identifier names one stored record.
pub proof fn lemma_distinct_records_have_distinct_ids(m1: ModelView, m2: ModelView)
    requires
        m1.id != m2.id,
    ensures
        example_of_model(m1).id != example_of_model(m2).id,
{
    if example_of_model(m1).id == example_of_model(m2).id {
        lemma_uuid_hyphenated_injective(m1.id, m2.id);
    }
}

/// The UUID of an identifier, given what parsing its text gave: the parsed
/// value, or an invalid-argument status.
pub fn uuid_from_parsed(parsed: Option<u128>) -> (r: Result<u128, Status>)
    ensures
        result_view(r) == uuid_of_parsed(parsed),
{
    match parsed {
        Some(u) => Ok(u),
        None => Err(Status::invalid_argument("Id was not set to a valid UUID".to_string())),
    }
}

impl ConvertFrom<Model> for Example {
    fn convert_from(value: Model) -> (e: Example)
        ensures
            e@ == example_of_model(value@),
            active_of_example(e@) == Ok::<ActiveModelView, StatusView>(set_all(value@.id, value@.contents)),
    {
        Example { id: Some(Id { value: uuid_to_string(value.id) }), contents: value.contents }
    }
}

impl ConvertTo<u128> for Id {
    fn convert_to(self) -> (r: Result<u128, Status>)
        ensures
            result_view(r) == uuid_of_parsed(uuid_parse(self@)),
            forall|u: u128| #[trigger] uuid_hyphenated(u) == self@ ==> r == Ok::<u128, Status>(u),
            r is Ok <==> uuid_parse(self@) is Some,
            r is Ok ==> uuid_parse(self@) == Some(r->Ok_0),
            r is Err ==> r->Err_0.code == Code::InvalidArgument,
    {
        let parsed = parse_uuid(self.value.as_str());
        uuid_from_parsed(parsed)
    }
}

impl ConvertTo<u128> for Option<Id> {
    fn convert_to(self) -> (r: Result<u128, Status>)
        ensures
            result_view(r) == uuid_of_id(id_view(self)),
            forall|u: u128| id_view(self) == Some(#[trigger] uuid_hyphenated(u)) ==> r == Ok::<u128, Status>(u),
            r is Ok <==> (self is Some && uuid_parse(self->0@) is Some),
            r is Ok ==> uuid_parse(self->0@) == Some(r->Ok_0),
            r is Err ==> r->Err_0.code == Code::InvalidArgument,
    {
        match self {
            None => Err(Status::invalid_argument("Id is required".to_string())),
            Some(id) => id.convert_to(),
        }
    }
}

impl ConvertTo<ActiveModel> for Example {
    fn convert_to(self) -> (r: Result<ActiveModel, Status>)
        ensures
            result_view(r) == active_of_example(self@),
            forall|u: u128| self@.id == Some(#[trigger] uuid_hyphenated(u)) ==>
                r is Ok && r->Ok_0@ == set_all(u, self@.contents),
            forall|u: u128| self.id is Some && uuid_parse(self.id->0@) == Some(u) ==>
                r is Ok && r->Ok_0@ == set_all(u, self@.contents),
            r is Ok ==> self.id is Some && uuid_parse(self.id->0@) is Some,
            r is Err ==> r->Err_0.code == Code::InvalidArgument,
    {
        let contents = self.contents;
        match self.id.convert_to() {
            Ok(u) => Ok(ActiveModel { id: ActiveValue::Assigned(u), contents: ActiveValue::Assigned(contents) }),
            Err(s) => Err(s),
        }
    }
}

} // verus!
