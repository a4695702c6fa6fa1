use vstd::prelude::*;

use crate::json::Json;
use crate::schema::CollectionSchema;

verus! {

/// What a caller gives to create a collection.
#[derive(Debug, PartialEq)]
pub struct Collection {
    pub name: String,
    pub schema: Option<CollectionSchema>,
}

/// What a caller gives to create or replace a record.
#[derive(Debug, PartialEq)]
pub struct Record {
    pub data: Json,
}

} // verus!
