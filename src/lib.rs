//! A schema-optional document store: collections that may carry a field
//! schema, records that hold JSON documents, the validation of a document
//! against a schema, and the storage contract as verified command plans over
//! a model of the two tables.
use vstd::prelude::*;

pub mod json;
pub mod models;
pub mod schema;
pub mod store;
pub mod tables;
pub mod validation;

use crate::json::Json;
use crate::schema::CollectionSchema;

verus! {

/// A stored collection: its identity, name and optional schema.
#[derive(Debug, PartialEq)]
pub struct Collection {
    pub id: i64,
    pub name: String,
    pub schema: Option<CollectionSchema>,
}

/// A stored record: its identity and its document.
#[derive(Debug, PartialEq)]
pub struct Record {
    pub id: i64,
    pub data: Json,
}

} // verus!
