//! A model of the two tables, the meaning of each statement on it, and the
//! laws that the operations' plans obey there.
use vstd::prelude::*;

use crate::json::Json;
use crate::schema::CollectionSchema;
use crate::store::{first_row, row_or_not_found, Command, Operation, StoreError};
use crate::{Collection, Record};

verus! {

/// A row of the collections table.
pub struct CollectionEntry {
    pub name: Seq<char>,
    pub schema: Option<CollectionSchema>,
}

/// A row of the records table.
pub struct RecordEntry {
    pub collection_id: i64,
    pub data: Json,
}

/// The contents of the two tables, each keyed by its rows' identities.
pub struct Tables {
    pub collections: Map<i64, CollectionEntry>,
    pub records: Map<i64, RecordEntry>,
}

/// Whether the record `record_id` exists and belongs to `collection_id`.
pub open spec fn holds_record(t: Tables, collection_id: i64, record_id: i64) -> bool {
    t.records.contains_key(record_id) && t.records[record_id].collection_id == collection_id
}

/// The tables after one statement. An insert gives its new row the identity
/// `fresh`, which the engine picks among those not in use.
pub open spec fn apply(t: Tables, c: Command, fresh: i64) -> Tables {
    match c {
        Command::InsertCollection { name, schema } => Tables {
            collections: t.collections.insert(fresh, CollectionEntry { name: name@, schema }),
            records: t.records,
        },
        Command::SetCollectionName { id, name } => if t.collections.contains_key(id) {
            Tables {
                collections: t.collections.insert(
                    id,
                    CollectionEntry { name: name@, schema: t.collections[id].schema },
                ),
                records: t.records,
            }
        } else {
            t
        },
        Command::SetCollectionSchema { id, schema } => if t.collections.contains_key(id) {
            Tables {
                collections: t.collections.insert(
                    id,
                    CollectionEntry { name: t.collections[id].name, schema: Some(schema) },
                ),
                records: t.records,
            }
        } else {
            t
        },
        Command::DeleteCollection { id } => Tables {
            collections: t.collections.remove(id),
            records: t.records,
        },
        Command::DeleteRecordsOf { collection_id } => Tables {
            collections: t.collections,
            records: t.records.restrict(
                t.records.dom().filter(|k: i64| t.records[k].collection_id != collection_id),
            ),
        },
        Command::InsertRecord { collection_id, data } => Tables {
            collections: t.collections,
            records: t.records.insert(fresh, RecordEntry { collection_id, data }),
        },
        Command::SetRecordData { collection_id, record_id, data } => if holds_record(
            t,
            collection_id,
            record_id,
        ) {
            Tables {
                collections: t.collections,
                records: t.records.insert(record_id, RecordEntry { collection_id, data }),
            }
        } else {
            t
        },
        Command::DeleteRecord { collection_id, record_id } => if holds_record(
            t,
            collection_id,
            record_id,
        ) {
            Tables { collections: t.collections, records: t.records.remove(record_id) }
        } else {
            t
        },
        _ => t,
    }
}

/// The tables after a sequence of statements.
pub open spec fn run(t: Tables, cs: Seq<Command>, fresh: i64) -> Tables
    decreases cs.len(),
{
    if cs.len() == 0 {
        t
    } else {
        run(apply(t, cs[0], fresh), cs.drop_first(), fresh)
    }
}

/// Whether `c` is the row of the collections table with its identity.
pub open spec fn is_collection_row(t: Tables, c: Collection) -> bool {
    &&& t.collections.contains_key(c.id)
    &&& t.collections[c.id].name == c.name@
    &&& t.collections[c.id].schema == c.schema
}

/// Whether `r` is the row of the records table with its identity.
pub open spec fn is_record_row(t: Tables, r: Record) -> bool {
    t.records.contains_key(r.id) && t.records[r.id].data == r.data
}

/// Whether `rows` is what `SelectCollection { id }` returns on `t`.
pub open spec fn selects_collection(t: Tables, id: i64, rows: Seq<Collection>) -> bool {
    if t.collections.contains_key(id) {
        rows.len() == 1 && rows[0].id == id && is_collection_row(t, rows[0])
    } else {
        rows.len() == 0
    }
}

/// Whether `rows` is what `SelectRecord { collection_id, record_id }` returns on `t`.
pub open spec fn selects_record(
    t: Tables,
    collection_id: i64,
    record_id: i64,
    rows: Seq<Record>,
) -> bool {
    if holds_record(t, collection_id, record_id) {
        rows.len() == 1 && rows[0].id == record_id && is_record_row(t, rows[0])
    } else {
        rows.len() == 0
    }
}

/// Deleting a collection deletes its records with it: once a collection has
/// been created, a record created under it, and the collection deleted, the
/// collection and all its records are gone, and looking the record up finds
/// nothing, which is no error.
pub proof fn delete_collection_cascades(
    t: Tables,
    name: String,
    schema: Option<CollectionSchema>,
    data: Json,
    collection_id: i64,
    record_id: i64,
    fresh: i64,
    rows: Seq<Record>,
)
    requires
        selects_record(
            run(
                run(
                    run(
                        t,
                        Operation::CreateCollection { name, schema }.plan(),
                        collection_id,
                    ),
                    Operation::CreateRecord { collection_id, data }.plan(),
                    record_id,
                ),
                Operation::DeleteCollection { id: collection_id }.plan(),
                fresh,
            ),
            collection_id,
            record_id,
            rows,
        ),
    ensures
        first_row(rows) is None,
        ({
            let deleted = run(
                run(
                    run(
                        t,
                        Operation::CreateCollection { name, schema }.plan(),
                        collection_id,
                    ),
                    Operation::CreateRecord { collection_id, data }.plan(),
                    record_id,
                ),
                Operation::DeleteCollection { id: collection_id }.plan(),
                fresh,
            );
            &&& !deleted.collections.contains_key(collection_id)
            &&& forall|k: i64| #[trigger]
                deleted.records.contains_key(k) ==> deleted.records[k].collection_id
                    != collection_id
        }),
{
    reveal_with_fuel(run, 3);
    let created = run(t, Operation::CreateCollection { name, schema }.plan(), collection_id);
    let filled = run(created, Operation::CreateRecord { collection_id, data }.plan(), record_id);
    let plan = Operation::DeleteCollection { id: collection_id }.plan();
    assert(plan.drop_first() =~= seq![Command::DeleteCollection { id: collection_id }]);
    assert(plan.drop_first().drop_first() =~= Seq::<Command>::empty());
}

/// Renaming a collection leaves its schema as it was: an update that gives a
/// name and no schema returns the collection with the new name and the old
/// schema, and a later lookup finds it so.
pub proof fn update_name_keeps_schema(
    t: Tables,
    id: i64,
    name: String,
    fresh: i64,
    rows: Seq<Collection>,
    later: Seq<Collection>,
)
    requires
        t.collections.contains_key(id),
        selects_collection(
            run(t, Operation::UpdateCollection { id, name: Some(name), schema: None }.plan(), fresh),
            id,
            rows,
        ),
        selects_collection(
            run(
                run(
                    t,
                    Operation::UpdateCollection { id, name: Some(name), schema: None }.plan(),
                    fresh,
                ),
                Operation::GetCollection { id }.plan(),
                fresh,
            ),
            id,
            later,
        ),
    ensures
        row_or_not_found(rows) matches Ok(c) && c.name@ == name@ && c.schema
            == t.collections[id].schema,
        first_row(later) matches Some(c) && c.name@ == name@ && c.schema
            == t.collections[id].schema,
{
    reveal_with_fuel(run, 3);
    let plan = Operation::UpdateCollection { id, name: Some(name), schema: None }.plan();
    assert(plan =~= seq![Command::SetCollectionName { id, name }, Command::SelectCollection { id }]);
    assert(plan.drop_first() =~= seq![Command::SelectCollection { id }]);
    assert(plan.drop_first().drop_first() =~= Seq::<Command>::empty());
    let after = run(t, plan, fresh);
    let get = Operation::GetCollection { id }.plan();
    assert(get.drop_first() =~= Seq::<Command>::empty());
    assert(run(after, get, fresh) == after);
}

/// Updating a collection that does not exist fails with `NotFound`, whatever
/// the update gives.
pub proof fn update_missing_collection_is_not_found(
    t: Tables,
    id: i64,
    name: Option<String>,
    schema: Option<CollectionSchema>,
    fresh: i64,
    rows: Seq<Collection>,
)
    requires
        !t.collections.contains_key(id),
        selects_collection(
            run(t, Operation::UpdateCollection { id, name, schema }.plan(), fresh),
            id,
            rows,
        ),
    ensures
        row_or_not_found(rows) == Err::<Collection, StoreError>(StoreError::NotFound),
{
    reveal_with_fuel(run, 4);
    let plan = Operation::UpdateCollection { id, name, schema }.plan();
    let select = Command::SelectCollection { id };
    match (name, schema) {
        (Some(n), Some(s)) => {
            assert(plan =~= seq![
                Command::SetCollectionName { id, name: n },
                Command::SetCollectionSchema { id, schema: s },
                select,
            ]);
            assert(plan.drop_first() =~= seq![Command::SetCollectionSchema { id, schema: s }, select]);
            assert(plan.drop_first().drop_first() =~= seq![select]);
            assert(plan.drop_first().drop_first().drop_first() =~= Seq::<Command>::empty());
        },
        (Some(n), None) => {
            assert(plan =~= seq![Command::SetCollectionName { id, name: n }, select]);
            assert(plan.drop_first() =~= seq![select]);
            assert(plan.drop_first().drop_first() =~= Seq::<Command>::empty());
        },
        (None, Some(s)) => {
            assert(plan =~= seq![Command::SetCollectionSchema { id, schema: s }, select]);
            assert(plan.drop_first() =~= seq![select]);
            assert(plan.drop_first().drop_first() =~= Seq::<Command>::empty());
        },
        (None, None) => {
            assert(plan =~= seq![select]);
            assert(plan.drop_first() =~= Seq::<Command>::empty());
        },
    }
}

/// Updating a record that does not exist in the given collection fails with
/// `NotFound`.
pub proof fn update_missing_record_is_not_found(
    t: Tables,
    collection_id: i64,
    record_id: i64,
    data: Json,
    fresh: i64,
    rows: Seq<Record>,
)
    requires
        !holds_record(t, collection_id, record_id),
        selects_record(
            run(t, Operation::UpdateRecord { collection_id, record_id, data }.plan(), fresh),
            collection_id,
            record_id,
            rows,
        ),
    ensures
        row_or_not_found(rows) == Err::<Record, StoreError>(StoreError::NotFound),
{
    reveal_with_fuel(run, 3);
    let plan = Operation::UpdateRecord { collection_id, record_id, data }.plan();
    assert(plan.drop_first() =~= seq![Command::SelectRecord { collection_id, record_id }]);
    assert(plan.drop_first().drop_first() =~= Seq::<Command>::empty());
}

} // verus!
