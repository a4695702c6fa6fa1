use tinybase::json::Json;
use tinybase::schema::{CollectionSchema, FieldDefinition, FieldType};
use tinybase::store::{
    check_document, finish_get_collection, finish_get_record, finish_update_collection,
    finish_update_record, table_definitions, Command, Operation, StoreError,
};
use tinybase::validation::ValidationError;
use tinybase::{Collection, Record};

fn text(s: &str) -> String {
    s.to_string()
}

fn title_schema() -> CollectionSchema {
    CollectionSchema {
        fields: vec![(
            text("title"),
            FieldDefinition { field_type: FieldType::String, required: true, default: None },
        )],
    }
}

fn title(s: &str) -> Json {
    Json::Object(vec![(text("title"), Json::String(text(s)))])
}

fn posts() -> Collection {
    Collection { id: 1, name: text("Posts"), schema: Some(title_schema()) }
}

#[test]
fn create_collection_is_one_insert() {
    let op = Operation::CreateCollection { name: text("Users"), schema: None };
    assert_eq!(
        op.commands(),
        vec![Command::InsertCollection { name: text("Users"), schema: None }]
    );
}

#[test]
fn update_collection_writes_only_given_fields() {
    let op = Operation::UpdateCollection { id: 4, name: Some(text("New Users")), schema: None };
    assert_eq!(
        op.commands(),
        vec![
            Command::SetCollectionName { id: 4, name: text("New Users") },
            Command::SelectCollection { id: 4 },
        ]
    );
    let op = Operation::UpdateCollection { id: 4, name: None, schema: Some(title_schema()) };
    assert_eq!(
        op.commands(),
        vec![
            Command::SetCollectionSchema { id: 4, schema: title_schema() },
            Command::SelectCollection { id: 4 },
        ]
    );
    let op = Operation::UpdateCollection { id: 4, name: None, schema: None };
    assert_eq!(op.commands(), vec![Command::SelectCollection { id: 4 }]);
}

#[test]
fn delete_collection_removes_its_records_first() {
    let op = Operation::DeleteCollection { id: 9 };
    assert_eq!(
        op.commands(),
        vec![Command::DeleteRecordsOf { collection_id: 9 }, Command::DeleteCollection { id: 9 }]
    );
}

#[test]
fn record_operations_plan() {
    assert_eq!(
        Operation::UpdateRecord { collection_id: 2, record_id: 5, data: title("x") }.commands(),
        vec![
            Command::SetRecordData { collection_id: 2, record_id: 5, data: title("x") },
            Command::SelectRecord { collection_id: 2, record_id: 5 },
        ]
    );
    assert_eq!(
        Operation::CreateRecord { collection_id: 2, data: title("x") }.commands(),
        vec![Command::InsertRecord { collection_id: 2, data: title("x") }]
    );
    assert_eq!(
        Operation::ListRecords { collection_id: 2 }.commands(),
        vec![Command::SelectRecords { collection_id: 2 }]
    );
    assert_eq!(
        Operation::GetRecord { collection_id: 2, record_id: 5 }.commands(),
        vec![Command::SelectRecord { collection_id: 2, record_id: 5 }]
    );
    assert_eq!(
        Operation::DeleteRecord { collection_id: 2, record_id: 5 }.commands(),
        vec![Command::DeleteRecord { collection_id: 2, record_id: 5 }]
    );
    assert_eq!(Operation::ListCollections.commands(), vec![Command::SelectCollections]);
    assert_eq!(
        Operation::GetCollection { id: 3 }.commands(),
        vec![Command::SelectCollection { id: 3 }]
    );
}

#[test]
fn statements_scope_records_to_their_collection() {
    assert_eq!(
        Command::SelectRecord { collection_id: 1, record_id: 2 }.sql(),
        "SELECT id, data FROM records WHERE collection_id = ?1 AND id = ?2"
    );
    assert_eq!(
        Command::DeleteRecordsOf { collection_id: 1 }.sql(),
        "DELETE FROM records WHERE collection_id = ?1"
    );
    assert_eq!(
        Command::SetCollectionName { id: 1, name: text("a") }.sql(),
        "UPDATE collections SET name = ?2 WHERE id = ?1"
    );
    assert_eq!(Command::SelectCollections.sql(), "SELECT id, name, schema FROM collections");
    let tables = table_definitions();
    assert_eq!(tables.len(), 2);
    assert!(tables[0].starts_with("CREATE TABLE IF NOT EXISTS collections"));
    assert!(tables[1].starts_with("CREATE TABLE IF NOT EXISTS records"));
}

#[test]
fn lookups_report_absence_without_error() {
    assert_eq!(finish_get_collection(vec![]), None);
    assert_eq!(finish_get_record(vec![]), None);
    assert_eq!(finish_get_collection(vec![posts()]), Some(posts()));
    let r = Record { id: 7, data: title("Hello!") };
    assert_eq!(finish_get_record(vec![r]), Some(Record { id: 7, data: title("Hello!") }));
}

#[test]
fn updates_of_missing_rows_are_not_found() {
    assert_eq!(finish_update_collection(vec![]), Err(StoreError::NotFound));
    assert_eq!(finish_update_record(vec![]), Err(StoreError::NotFound));
    let renamed = Collection { id: 1, name: text("New Users"), schema: None };
    assert_eq!(
        finish_update_collection(vec![renamed]),
        Ok(Collection { id: 1, name: text("New Users"), schema: None })
    );
    let r = Record { id: 3, data: title("New Hello!") };
    assert_eq!(finish_update_record(vec![r]), Ok(Record { id: 3, data: title("New Hello!") }));
}

#[test]
fn schema_round_trip_accepts_and_rejects() {
    let collection = Some(posts());
    assert_eq!(check_document(&collection, &title("Hello!")), Ok(()));
    let wrong = Json::Object(vec![(text("wrong_field"), Json::String(text("Hello!")))]);
    let err = check_document(&collection, &wrong).unwrap_err();
    assert_eq!(
        err,
        StoreError::ValidationFailed(vec![ValidationError::MissingRequiredField(text("title"))])
    );
    assert_eq!(err.status_code(), 422);
    assert_eq!(err.error_code(), "validation_error");
}

#[test]
fn write_to_missing_collection_is_not_found() {
    let err = check_document(&None, &title("Hello!")).unwrap_err();
    assert_eq!(err, StoreError::NotFound);
    assert_eq!(err.status_code(), 404);
    assert_eq!(err.error_code(), "not_found");
}

#[test]
fn collection_without_schema_takes_any_document() {
    let c = Some(Collection { id: 2, name: text("Free"), schema: None });
    assert_eq!(check_document(&c, &Json::Number(text("12"))), Ok(()));
    assert_eq!(check_document(&c, &Json::Null), Ok(()));
}

#[test]
fn engine_and_encoding_errors_are_server_errors() {
    let e = StoreError::StorageEngine(text("database is locked"));
    assert_eq!((e.status_code(), e.error_code()), (500, "database_error"));
    let e = StoreError::Serialization(text("EOF while parsing"));
    assert_eq!((e.status_code(), e.error_code()), (500, "serialization_error"));
}
