use example_service::entities::example::{ActiveModel, Model};
use example_service::entities::{ActiveValue, DbErr, Page};
use example_service::handlers::{
    create_example_record, create_example_response, find_example_id, find_example_response,
    get_example_list_query, get_example_list_response, new_example_record,
    update_example_record, update_example_response,
};
use example_service::persistence::{example_list_query, PageQuery, DEFAULT_PAGE_SIZE};
use example_service::proto::{
    CreateExampleRequest, Example, FindExampleRequest, GetExampleListRequest, Id,
    UpdateExampleRequest,
};
use example_service::status::Code;

const KEY: u128 = 0x550e_8400_e29b_41d4_a716_4466_5544_0000;
const KEY_TEXT: &str = "550e8400-e29b-41d4-a716-446655440000";

fn model(id: u128, contents: &str) -> Model {
    Model { id, contents: contents.to_string() }
}

#[test]
fn find_asks_for_the_parsed_id() {
    let request = FindExampleRequest { id: Some(Id { value: KEY_TEXT.to_string() }) };
    assert_eq!(find_example_id(request).unwrap(), KEY);
    let err = find_example_id(FindExampleRequest { id: None }).unwrap_err();
    assert_eq!(err.code, Code::InvalidArgument);
    assert_eq!(err.message, "Id is required");
}

#[test]
fn find_answers_with_the_record() {
    let response = find_example_response(Ok(Some(model(KEY, "Contents")))).unwrap();
    let record = response.record.unwrap();
    assert_eq!(record.id.unwrap().value, KEY_TEXT);
    assert_eq!(record.contents, "Contents");
}

#[test]
fn find_of_nothing_is_not_found() {
    let err = find_example_response(Ok(None)).unwrap_err();
    assert_eq!(err.code, Code::NotFound);
    assert_eq!(err.message, "Record not found");
}

#[test]
fn find_database_errors() {
    let err = find_example_response(Err(DbErr::RecordNotFound("gone".to_string()))).unwrap_err();
    assert_eq!(err.code, Code::NotFound);
    assert_eq!(err.message, "gone");
    let err = find_example_response(Err(DbErr::Other("disk".to_string()))).unwrap_err();
    assert_eq!(err.code, Code::Internal);
    assert_eq!(err.message, "Unexpected error");
}

#[test]
fn create_writes_random_id_and_contents() {
    let record = create_example_record(CreateExampleRequest { contents: "Contents".to_string() });
    assert_eq!(record.contents, ActiveValue::Assigned("Contents".to_string()));
    match record.id {
        ActiveValue::Assigned(id) => {
            assert_eq!(id & 0xF000_C000_0000_0000_0000, 0x4000_8000_0000_0000_0000);
        }
        other => panic!("id not assigned: {:?}", other),
    }
    let again = create_example_record(CreateExampleRequest { contents: "Contents".to_string() });
    assert_ne!(record.id, again.id);
}

#[test]
fn new_record_assigns_both_columns() {
    assert_eq!(
        new_example_record(3, "c".to_string()),
        ActiveModel { id: ActiveValue::Assigned(3), contents: ActiveValue::Assigned("c".to_string()) }
    );
}

#[test]
fn create_answers() {
    let response = create_example_response(Ok(model(KEY, "Contents"))).unwrap();
    let record = response.record.expect("Record Expected");
    assert_eq!(&record.contents, "Contents");
    assert_eq!(record.id.unwrap().value, KEY_TEXT);
    let err = create_example_response(Err(DbErr::RecordNotFound("x".to_string()))).unwrap_err();
    assert_eq!(err.code, Code::Internal);
    assert_eq!(err.message, "Unexpected Error");
}

#[test]
fn update_writes_the_record() {
    let request = UpdateExampleRequest {
        record: Some(Example { id: Some(Id { value: KEY_TEXT.to_string() }), contents: "Goodbye, World!".to_string() }),
    };
    assert_eq!(
        update_example_record(request).unwrap(),
        ActiveModel { id: ActiveValue::Assigned(KEY), contents: ActiveValue::Assigned("Goodbye, World!".to_string()) }
    );
    let request = UpdateExampleRequest {
        record: Some(Example { id: Some(Id { value: "nope".to_string() }), contents: String::new() }),
    };
    let err = update_example_record(request).unwrap_err();
    assert_eq!(err.code, Code::InvalidArgument);
    assert_eq!(err.message, "Id was not set to a valid UUID");
}

#[test]
fn update_answers() {
    let response = update_example_response(Ok(model(KEY, "Goodbye, World!"))).unwrap();
    assert_eq!(response.record.unwrap().contents, "Goodbye, World!");
    let err = update_example_response(Err(DbErr::RecordNotFound("no row".to_string()))).unwrap_err();
    assert_eq!(err.code, Code::NotFound);
    assert_eq!(err.message, "no row");
    let err = update_example_response(Err(DbErr::Other("x".to_string()))).unwrap_err();
    assert_eq!(err.code, Code::Internal);
    assert_eq!(err.message, "Unexpected error");
}

#[test]
fn list_query_defaults_page_size() {
    assert_eq!(DEFAULT_PAGE_SIZE, 10);
    assert_eq!(example_list_query(0, 0), PageQuery { page_size: 10, page: 0 });
    assert_eq!(example_list_query(10, 1), PageQuery { page_size: 10, page: 1 });
    assert_eq!(
        get_example_list_query(GetExampleListRequest { page_size: 0, page: 3 }),
        PageQuery { page_size: 10, page: 3 }
    );
    assert_eq!(
        get_example_list_query(GetExampleListRequest { page_size: 7, page: 0 }),
        PageQuery { page_size: 7, page: 0 }
    );
}

#[test]
fn list_answers_records_in_order() {
    let page = Page { records: vec![model(1, "a"), model(2, "b"), model(KEY, "c")], total_pages: 2 };
    let response = get_example_list_response(Ok(page)).unwrap();
    assert_eq!(response.total_pages, 2);
    let contents: Vec<&str> = response.records.iter().map(|r| r.contents.as_str()).collect();
    assert_eq!(contents, vec!["a", "b", "c"]);
    assert_eq!(response.records[0].id.as_ref().unwrap().value, "00000000-0000-0000-0000-000000000001");
    assert_eq!(response.records[2].id.as_ref().unwrap().value, KEY_TEXT);
}

#[test]
fn list_of_empty_page() {
    let response = get_example_list_response(Ok(Page { records: vec![], total_pages: 0 })).unwrap();
    assert_eq!(response.records.len(), 0);
    assert_eq!(response.total_pages, 0);
}

#[test]
fn list_page_count_wraps_at_32_bits() {
    let response = get_example_list_response(Ok(Page { records: vec![], total_pages: (1u64 << 32) + 5 })).unwrap();
    assert_eq!(response.total_pages, 5);
}

#[test]
fn list_failure_is_internal() {
    let err = get_example_list_response(Err(DbErr::Other("x".to_string()))).unwrap_err();
    assert_eq!(err.code, Code::Internal);
    assert_eq!(err.message, "Unknown Error");
}
