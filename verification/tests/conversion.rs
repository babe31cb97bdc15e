use example_service::conversion::{uuid_from_parsed, ConvertFrom, ConvertTo};
use example_service::entities::example::{ActiveModel, Model};
use example_service::entities::ActiveValue;
use example_service::proto::{Example, Id};
use example_service::status::Code;

const KEY: u128 = 0x67e5_5044_10b1_426f_9247_bb68_0e5f_e0c8;
const KEY_TEXT: &str = "67e55044-10b1-426f-9247-bb680e5fe0c8";

fn model(id: u128, contents: &str) -> Model {
    Model { id, contents: contents.to_string() }
}

#[test]
fn record_becomes_message_with_hyphenated_id() {
    let example = Example::convert_from(model(KEY, "Hello, World!"));
    assert_eq!(example.id, Some(Id { value: KEY_TEXT.to_string() }));
    assert_eq!(example.contents, "Hello, World!");
}

#[test]
fn message_id_has_leading_zeros_and_lower_case() {
    let example = Example::convert_from(model(0xAB, ""));
    assert_eq!(example.id.unwrap().value, "00000000-0000-0000-0000-0000000000ab");
    let example = Example::convert_from(model(u128::MAX, "x"));
    assert_eq!(example.id.unwrap().value, "ffffffff-ffff-ffff-ffff-ffffffffffff");
}

#[test]
fn record_round_trips_through_message() {
    let m = model(KEY, "Contents");
    let active: ActiveModel = Example::convert_from(m.clone()).convert_to().unwrap();
    assert_eq!(
        active,
        ActiveModel { id: ActiveValue::Assigned(m.id), contents: ActiveValue::Assigned(m.contents) }
    );
}

#[test]
fn missing_id_is_invalid_argument() {
    let missing: Option<Id> = None;
    let err = ConvertTo::<u128>::convert_to(missing).unwrap_err();
    assert_eq!(err.code, Code::InvalidArgument);
    assert_eq!(err.message, "Id is required");
}

#[test]
fn malformed_id_is_invalid_argument() {
    for text in ["", "not-a-uuid", "67e55044-10b1-426f-9247-bb680e5fe0c", "67e55044_10b1_426f_9247_bb680e5fe0c8"] {
        let err = ConvertTo::<u128>::convert_to(Id { value: text.to_string() }).unwrap_err();
        assert_eq!(err.code, Code::InvalidArgument);
        assert_eq!(err.message, "Id was not set to a valid UUID");
    }
}

#[test]
fn other_uuid_forms_are_accepted() {
    for text in [
        KEY_TEXT,
        "67E55044-10B1-426F-9247-BB680E5FE0C8",
        "67e5504410b1426f9247bb680e5fe0c8",
        "{67e55044-10b1-426f-9247-bb680e5fe0c8}",
        "urn:uuid:67e55044-10b1-426f-9247-bb680e5fe0c8",
    ] {
        let id = ConvertTo::<u128>::convert_to(Some(Id { value: text.to_string() })).unwrap();
        assert_eq!(id, KEY);
    }
}

#[test]
fn message_without_id_does_not_convert() {
    let example = Example { id: None, contents: "c".to_string() };
    let err = ConvertTo::<ActiveModel>::convert_to(example).unwrap_err();
    assert_eq!(err.code, Code::InvalidArgument);
    assert_eq!(err.message, "Id is required");
}

#[test]
fn parsed_uuid_is_taken_as_is() {
    assert_eq!(uuid_from_parsed(Some(7)).unwrap(), 7);
    let err = uuid_from_parsed(None).unwrap_err();
    assert_eq!(err.code, Code::InvalidArgument);
    assert_eq!(err.message, "Id was not set to a valid UUID");
}
