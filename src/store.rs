use vstd::prelude::*;

use crate::json::Json;
use crate::schema::{
    decodes_schema, encodes_schema, schema_from_json, schema_readable, schema_to_json,
    CollectionSchema,
};
use crate::validation::{validate_record, views, violations, ValidationError};
use crate::{Collection, Record};

verus! {

/// Why a storage operation failed.
#[derive(Debug, PartialEq)]
pub enum StoreError {
    /// The storage engine rejected or failed a statement; its message.
    StorageEngine(String),
    /// A stored or incoming document could not be encoded or decoded; the reason.
    Serialization(String),
    /// The target of an operation that needs it does not exist.
    NotFound,
    /// A document violates its collection's schema; every violation.
    ValidationFailed(Vec<ValidationError>),
}

impl StoreError {
    /// The HTTP status under which a caller reports the error.
    pub open spec fn status(&self) -> u16 {
        match self {
            StoreError::StorageEngine(_) | StoreError::Serialization(_) => 500,
            StoreError::NotFound => 404,
            StoreError::ValidationFailed(_) => 422,
        }
    }

    /// The short name under which a caller reports the error.
    pub open spec fn code(&self) -> &'static str {
        match self {
            StoreError::StorageEngine(_) => "database_error",
            StoreError::Serialization(_) => "serialization_error",
            StoreError::NotFound => "not_found",
            StoreError::ValidationFailed(_) => "validation_error",
        }
    }

    pub fn status_code(&self) -> (r: u16)
        ensures
            r == self.status(),
    {
        match self {
            StoreError::StorageEngine(_) | StoreError::Serialization(_) => 500,
            StoreError::NotFound => 404,
            StoreError::ValidationFailed(_) => 422,
        }
    }

    pub fn error_code(&self) -> (r: &'static str)
        ensures
            r == self.code(),
    {
        match self {
            StoreError::StorageEngine(_) => "database_error",
            StoreError::Serialization(_) => "serialization_error",
            StoreError::NotFound => "not_found",
            StoreError::ValidationFailed(_) => "validation_error",
        }
    }
}

/// One statement against the two tables. A schema or a document travels as a
/// value; whoever runs the statement binds it as its JSON text.
#[derive(Debug, PartialEq)]
pub enum Command {
    InsertCollection { name: String, schema: Option<CollectionSchema> },
    SelectCollection { id: i64 },
    SelectCollections,
    SetCollectionName { id: i64, name: String },
    SetCollectionSchema { id: i64, schema: CollectionSchema },
    DeleteCollection { id: i64 },
    DeleteRecordsOf { collection_id: i64 },
    InsertRecord { collection_id: i64, data: Json },
    SelectRecords { collection_id: i64 },
    SelectRecord { collection_id: i64, record_id: i64 },
    SetRecordData { collection_id: i64, record_id: i64, data: Json },
    DeleteRecord { collection_id: i64, record_id: i64 },
}

impl Command {
    /// The SQL text of the statement; its parameters follow the order of the
    /// variant's fields.
    pub open spec fn sql_text(&self) -> &'static str {
        match self {
            Command::InsertCollection { .. } => "INSERT INTO collections (name, schema) VALUES (?1, ?2)",
            Command::SelectCollection { .. } => "SELECT id, name, schema FROM collections WHERE id = ?1",
            Command::SelectCollections => "SELECT id, name, schema FROM collections",
            Command::SetCollectionName { .. } => "UPDATE collections SET name = ?2 WHERE id = ?1",
            Command::SetCollectionSchema { .. } => "UPDATE collections SET schema = ?2 WHERE id = ?1",
            Command::DeleteCollection { .. } => "DELETE FROM collections WHERE id = ?1",
            Command::DeleteRecordsOf { .. } => "DELETE FROM records WHERE collection_id = ?1",
            Command::InsertRecord { .. } => "INSERT INTO records (collection_id, data) VALUES (?1, ?2)",
            Command::SelectRecords { .. } => "SELECT id, data FROM records WHERE collection_id = ?1",
            Command::SelectRecord { .. } => "SELECT id, data FROM records WHERE collection_id = ?1 AND id = ?2",
            Command::SetRecordData { .. } => "UPDATE records SET data = ?3 WHERE collection_id = ?1 AND id = ?2",
            Command::DeleteRecord { .. } => "DELETE FROM records WHERE collection_id = ?1 AND id = ?2",
        }
    }

    pub fn sql(&self) -> (r: &'static str)
        ensures
            r == self.sql_text(),
    {
        match self {
            Command::InsertCollection { .. } => "INSERT INTO collections (name, schema) VALUES (?1, ?2)",
            Command::SelectCollection { .. } => "SELECT id, name, schema FROM collections WHERE id = ?1",
            Command::SelectCollections => "SELECT id, name, schema FROM collections",
            Command::SetCollectionName { .. } => "UPDATE collections SET name = ?2 WHERE id = ?1",
            Command::SetCollectionSchema { .. } => "UPDATE collections SET schema = ?2 WHERE id = ?1",
            Command::DeleteCollection { .. } => "DELETE FROM collections WHERE id = ?1",
            Command::DeleteRecordsOf { .. } => "DELETE FROM records WHERE collection_id = ?1",
            Command::InsertRecord { .. } => "INSERT INTO records (collection_id, data) VALUES (?1, ?2)",
            Command::SelectRecords { .. } => "SELECT id, data FROM records WHERE collection_id = ?1",
            Command::SelectRecord { .. } => "SELECT id, data FROM records WHERE collection_id = ?1 AND id = ?2",
            Command::SetRecordData { .. } => "UPDATE records SET data = ?3 WHERE collection_id = ?1 AND id = ?2",
            Command::DeleteRecord { .. } => "DELETE FROM records WHERE collection_id = ?1 AND id = ?2",
        }
    }
}

broadcast use vstd::string::to_string_from_display_ensures_for_str;

/// The value written to a collection's schema column: the schema's JSON
/// form, or null where the collection has none.
pub fn schema_column(schema: Option<CollectionSchema>) -> (r: Json)
    ensures
        match schema {
            None => r is Null,
            Some(s) => encodes_schema(s, r),
        },
{
    match schema {
        None => Json::Null,
        Some(s) => schema_to_json(s),
    }
}

/// Rebuilds a collection from its row. A schema column that is empty or null
/// means no schema; one that does not read as a schema is a serialization error.
pub fn collection_from_row(id: i64, name: String, schema: Option<Json>) -> (r: Result<
    Collection,
    StoreError,
>)
    ensures
        match schema {
            None | Some(Json::Null) => r == Ok::<Collection, StoreError>(
                Collection { id, name, schema: None },
            ),
            Some(j) => {
                &&& r is Ok <==> schema_readable(j)
                &&& r matches Ok(c) ==> (c.schema matches Some(s) && c.id == id && c.name == name
                    && decodes_schema(j, s) && s.wf())
                &&& r matches Err(e) ==> e is Serialization
            },
        },
{
    match schema {
        None => Ok(Collection { id, name, schema: None }),
        Some(Json::Null) => Ok(Collection { id, name, schema: None }),
        Some(j) => match schema_from_json(j) {
            Some(s) => Ok(Collection { id, name, schema: Some(s) }),
            None => Err(StoreError::Serialization("stored schema is not a valid schema".to_string())),
        },
    }
}

/// The statements that create the two tables where they do not exist yet.
pub fn table_definitions() -> (r: Vec<&'static str>)
    ensures
        r@ == seq![
            "CREATE TABLE IF NOT EXISTS collections (id INTEGER PRIMARY KEY AUTOINCREMENT, name TEXT NOT NULL, schema JSON)",
            "CREATE TABLE IF NOT EXISTS records (id INTEGER PRIMARY KEY AUTOINCREMENT, collection_id INTEGER NOT NULL, data TEXT NOT NULL)",
        ],
{
    let mut r: Vec<&'static str> = Vec::new();
    r.push(
        "CREATE TABLE IF NOT EXISTS collections (id INTEGER PRIMARY KEY AUTOINCREMENT, name TEXT NOT NULL, schema JSON)",
    );
    r.push(
        "CREATE TABLE IF NOT EXISTS records (id INTEGER PRIMARY KEY AUTOINCREMENT, collection_id INTEGER NOT NULL, data TEXT NOT NULL)",
    );
    assert(r@ =~= seq![
        "CREATE TABLE IF NOT EXISTS collections (id INTEGER PRIMARY KEY AUTOINCREMENT, name TEXT NOT NULL, schema JSON)",
        "CREATE TABLE IF NOT EXISTS records (id INTEGER PRIMARY KEY AUTOINCREMENT, collection_id INTEGER NOT NULL, data TEXT NOT NULL)",
    ]);
    r
}

/// An operation of the storage contract, with its arguments.
#[derive(Debug, PartialEq)]
pub enum Operation {
    CreateCollection { name: String, schema: Option<CollectionSchema> },
    GetCollection { id: i64 },
    ListCollections,
    /// `None` leaves the name or the schema as it is.
    UpdateCollection { id: i64, name: Option<String>, schema: Option<CollectionSchema> },
    /// Deletes the collection and every record of it; a missing id is no error.
    DeleteCollection { id: i64 },
    CreateRecord { collection_id: i64, data: Json },
    ListRecords { collection_id: i64 },
    GetRecord { collection_id: i64, record_id: i64 },
    /// Replaces the record's document whole.
    UpdateRecord { collection_id: i64, record_id: i64, data: Json },
    /// Deletes the record where it exists; a missing one is no error.
    DeleteRecord { collection_id: i64, record_id: i64 },
}

impl Operation {
    /// The statements that carry out the operation, in order. Where the
    /// operation returns rows, they are those of the last statement. The
    /// statements of one operation run as one unit: no other operation sees
    /// the tables between two of them.
    pub open spec fn plan(self) -> Seq<Command> {
        match self {
            Operation::CreateCollection { name, schema } => seq![
                Command::InsertCollection { name, schema },
            ],
            Operation::GetCollection { id } => seq![Command::SelectCollection { id }],
            Operation::ListCollections => seq![Command::SelectCollections],
            Operation::UpdateCollection { id, name, schema } => {
                let names = match name {
                    Some(name) => seq![Command::SetCollectionName { id, name }],
                    None => Seq::empty(),
                };
                let schemas = match schema {
                    Some(schema) => seq![Command::SetCollectionSchema { id, schema }],
                    None => Seq::empty(),
                };
                names + schemas + seq![Command::SelectCollection { id }]
            },
            Operation::DeleteCollection { id } => seq![
                Command::DeleteRecordsOf { collection_id: id },
                Command::DeleteCollection { id },
            ],
            Operation::CreateRecord { collection_id, data } => seq![
                Command::InsertRecord { collection_id, data },
            ],
            Operation::ListRecords { collection_id } => seq![
                Command::SelectRecords { collection_id },
            ],
            Operation::GetRecord { collection_id, record_id } => seq![
                Command::SelectRecord { collection_id, record_id },
            ],
            Operation::UpdateRecord { collection_id, record_id, data } => seq![
                Command::SetRecordData { collection_id, record_id, data },
                Command::SelectRecord { collection_id, record_id },
            ],
            Operation::DeleteRecord { collection_id, record_id } => seq![
                Command::DeleteRecord { collection_id, record_id },
            ],
        }
    }

    /// The statements that carry out the operation.
    pub fn commands(self) -> (r: Vec<Command>)
        ensures
            r@ == self.plan(),
    {
        let ghost op = self;
        let mut r: Vec<Command> = Vec::new();
        match self {
            Operation::CreateCollection { name, schema } => {
                r.push(Command::InsertCollection { name, schema });
            },
            Operation::GetCollection { id } => {
                r.push(Command::SelectCollection { id });
            },
            Operation::ListCollections => {
                r.push(Command::SelectCollections);
            },
            Operation::UpdateCollection { id, name, schema } => {
                if let Some(name) = name {
                    r.push(Command::SetCollectionName { id, name });
                }
                if let Some(schema) = schema {
                    r.push(Command::SetCollectionSchema { id, schema });
                }
                r.push(Command::SelectCollection { id });
            },
            Operation::DeleteCollection { id } => {
                r.push(Command::DeleteRecordsOf { collection_id: id });
                r.push(Command::DeleteCollection { id });
            },
            Operation::CreateRecord { collection_id, data } => {
                r.push(Command::InsertRecord { collection_id, data });
            },
            Operation::ListRecords { collection_id } => {
                r.push(Command::SelectRecords { collection_id });
            },
            Operation::GetRecord { collection_id, record_id } => {
                r.push(Command::SelectRecord { collection_id, record_id });
            },
            Operation::UpdateRecord { collection_id, record_id, data } => {
                r.push(Command::SetRecordData { collection_id, record_id, data });
                r.push(Command::SelectRecord { collection_id, record_id });
            },
            Operation::DeleteRecord { collection_id, record_id } => {
                r.push(Command::DeleteRecord { collection_id, record_id });
            },
        }
        assert(r@ =~= op.plan());
        r
    }
}

/// What a lookup returns: its first row, or nothing.
pub open spec fn first_row<T>(rows: Seq<T>) -> Option<T> {
    if rows.len() == 0 {
        None
    } else {
        Some(rows[0])
    }
}

/// What an update returns: the row read back, or `NotFound`.
pub open spec fn row_or_not_found<T>(rows: Seq<T>) -> Result<T, StoreError> {
    if rows.len() == 0 {
        Err(StoreError::NotFound)
    } else {
        Ok(rows[0])
    }
}

fn take_first<T>(rows: Vec<T>) -> (r: Option<T>)
    ensures
        r == first_row(rows@),
{
    let mut rows = rows;
    if rows.len() == 0 {
        None
    } else {
        Some(rows.remove(0))
    }
}

/// The result of `GetCollection` from the rows its statement returned: the
/// collection, or `None` where there is none. Absence is no error.
pub fn finish_get_collection(rows: Vec<Collection>) -> (r: Option<Collection>)
    ensures
        r == first_row(rows@),
{
    take_first(rows)
}

/// The result of `UpdateCollection` from the rows read back after the
/// writes: the collection as it now stands, or `NotFound`.
pub fn finish_update_collection(rows: Vec<Collection>) -> (r: Result<Collection, StoreError>)
    ensures
        r == row_or_not_found(rows@),
{
    match take_first(rows) {
        Some(c) => Ok(c),
        None => Err(StoreError::NotFound),
    }
}

/// The result of `GetRecord` from the rows its statement returned: the
/// record, or `None` where there is none. Absence is no error.
pub fn finish_get_record(rows: Vec<Record>) -> (r: Option<Record>)
    ensures
        r == first_row(rows@),
{
    take_first(rows)
}

/// The result of `UpdateRecord` from the rows read back after the write: the
/// record as it now stands, or `NotFound`.
pub fn finish_update_record(rows: Vec<Record>) -> (r: Result<Record, StoreError>)
    ensures
        r == row_or_not_found(rows@),
{
    match take_first(rows) {
        Some(c) => Ok(c),
        None => Err(StoreError::NotFound),
    }
}

/// Decides whether `data` may be written under the collection that a lookup
/// returned: `NotFound` where there is none, every violation where the
/// collection has a schema that `data` breaks, and success otherwise.
pub fn check_document(collection: &Option<Collection>, data: &Json) -> (r: Result<(), StoreError>)
    ensures
        collection is None ==> r == Err::<(), StoreError>(StoreError::NotFound),
        collection matches Some(c) ==> (c.schema is None ==> r is Ok),
        collection matches Some(c) ==> (c.schema matches Some(s) ==> (r is Ok <==> violations(
            s,
            *data,
        ).len() == 0)),
        collection matches Some(c) ==> (c.schema matches Some(s) ==> (r matches Err(e) ==> (
        e matches StoreError::ValidationFailed(errors) && views(errors@) == violations(
            s,
            *data,
        )))),
{
    match collection {
        None => Err(StoreError::NotFound),
        Some(c) => match &c.schema {
            None => Ok(()),
            Some(schema) => match validate_record(schema, data) {
                Ok(()) => Ok(()),
                Err(errors) => {
                    assert(views(errors@).len() == errors@.len());
                    Err(StoreError::ValidationFailed(errors))
                },
            },
        },
    }
}

} // verus!
