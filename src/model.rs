//! A model of a table's stored state and of what an SQLite engine is meant
//! to do with each statement that `sql` renders, with the operations of
//! `table::Table` restated over it from the spec functions that their
//! verified parts are held to: the requests (`insert_params`,
//! `update_params`), the decoding (`decode`), and the decisions on the
//! engine's answers (`changed_any`, `fresh_record`). The laws below hold of
//! this model only; no contract of `Table` refers to it, and a live database
//! meets them as far as the engine behaves as modelled here.
use vstd::prelude::*;
use crate::value::{ValueModel, RecordModel};
use crate::schema::{Schema, SchemaModel, key_name, names_of};
use crate::table::{changed_any, fresh_record};
use crate::row::{
    DecodeFailure, decode, decode_columns, lookup, first_index, insert_params, update_params,
};

verus! {

/// The stored state of one table.
pub struct StoreModel {
    /// Whether the table exists.
    pub exists: bool,
    /// The column values of each row, by key.
    pub rows: Map<i64, Seq<ValueModel>>,
    /// The key the engine assigns to the next row inserted without one.
    pub next_key: int,
}

/// How an operation ended.
pub enum Outcome<T> {
    Done(T),
    MissingKey,
    Failed,
}

/// A freshly created, empty table.
pub open spec fn empty_table() -> StoreModel {
    StoreModel { exists: true, rows: Map::empty(), next_key: 1 }
}

/// The create statement: a new empty table, or the existing one untouched.
pub open spec fn after_create(st: StoreModel) -> StoreModel {
    if st.exists {
        st
    } else {
        empty_table()
    }
}

/// The drop statement: fails where there is no table.
pub open spec fn after_drop(st: StoreModel) -> Option<StoreModel> {
    if st.exists {
        Some(StoreModel { exists: false, rows: Map::empty(), next_key: 1 })
    } else {
        None
    }
}

/// The insert statement with its parameters (key, then columns): a `NULL`
/// key takes the next key; a taken key fails. Gives the row's key.
pub open spec fn after_insert(st: StoreModel, params: Seq<ValueModel>) -> Option<(StoreModel, i64)> {
    if !st.exists || params.len() == 0 {
        None
    } else {
        match params[0] {
            ValueModel::Null => if 1 <= st.next_key <= i64::MAX {
                let k = st.next_key as i64;
                Some((StoreModel { exists: true, rows: st.rows.insert(k, params.drop_first()), next_key: st.next_key + 1 }, k))
            } else {
                None
            },
            ValueModel::Integer(k) => if st.rows.contains_key(k) {
                None
            } else {
                let next = if k + 1 > st.next_key { k + 1 } else { st.next_key };
                Some((StoreModel { exists: true, rows: st.rows.insert(k, params.drop_first()), next_key: next }, k))
            },
            _ => None,
        }
    }
}

/// The update statement with its parameters (columns, then key): gives the
/// number of rows changed.
pub open spec fn after_update(st: StoreModel, params: Seq<ValueModel>) -> Option<(StoreModel, nat)> {
    if !st.exists || params.len() == 0 {
        None
    } else {
        match params.last() {
            ValueModel::Integer(k) => if st.rows.contains_key(k) {
                Some((StoreModel { rows: st.rows.insert(k, params.drop_last()), ..st }, 1))
            } else {
                Some((st, 0))
            },
            _ => Some((st, 0)),
        }
    }
}

/// The delete statement for key `k`: gives the number of rows removed.
pub open spec fn after_delete(st: StoreModel, k: i64) -> Option<(StoreModel, nat)> {
    if !st.exists {
        None
    } else if st.rows.contains_key(k) {
        Some((StoreModel { rows: st.rows.remove(k), ..st }, 1))
    } else {
        Some((st, 0))
    }
}

/// The select statement for key `k`: the row's column names and values.
pub open spec fn selected(st: StoreModel, s: SchemaModel, k: i64) -> Option<
    (Seq<Seq<char>>, Seq<ValueModel>),
> {
    if st.exists && st.rows.contains_key(k) {
        Some((seq![key_name()] + names_of(s.columns), seq![ValueModel::Integer(k)] + st.rows[k]))
    } else {
        None
    }
}

/// Insert: the new state, the record, and the outcome.
pub open spec fn insert_op(st: StoreModel, r: RecordModel) -> (StoreModel, RecordModel, Outcome<i64>) {
    match after_insert(st, insert_params(r)) {
        Some((st1, k)) => (st1, RecordModel { id: Some(k), values: r.values }, Outcome::Done(k)),
        None => (st, r, Outcome::Failed),
    }
}

/// Update: the new state and the outcome (whether a row was changed).
pub open spec fn update_op(st: StoreModel, r: RecordModel) -> (StoreModel, Outcome<bool>) {
    match r.id {
        None => (st, Outcome::MissingKey),
        Some(k) => match after_update(st, update_params(r.values, k)) {
            Some((st1, n)) => (st1, Outcome::Done(changed_any(n))),
            None => (st, Outcome::Failed),
        },
    }
}

/// Upsert: insert without a key; with one, update, and where no row was
/// changed insert the record as a new row, under a fresh key.
pub open spec fn upsert_op(st: StoreModel, r: RecordModel) -> (StoreModel, RecordModel, Outcome<i64>) {
    match r.id {
        None => insert_op(st, r),
        Some(k) => {
            let (st1, u) = update_op(st, r);
            match u {
                Outcome::Done(b) => if b {
                    (st1, r, Outcome::Done(k))
                } else {
                    insert_op(st1, fresh_record(r))
                },
                _ => (st1, r, Outcome::Failed),
            }
        },
    }
}

/// Get by key: the decoded row, or `None` where no row has the key.
pub open spec fn get_op(st: StoreModel, s: SchemaModel, k: i64) -> Outcome<Option<RecordModel>> {
    match selected(st, s, k) {
        None => Outcome::Done(None),
        Some((names, vals)) => match decode(s, names, vals) {
            Ok(r) => Outcome::Done(Some(r)),
            Err(_) => Outcome::Failed,
        },
    }
}

/// Sync: the record after reading its row back, and whether it was found.
pub open spec fn sync_op(st: StoreModel, s: SchemaModel, r: RecordModel) -> (RecordModel, Outcome<bool>) {
    match r.id {
        None => (r, Outcome::Done(false)),
        Some(k) => match get_op(st, s, k) {
            Outcome::Done(Some(f)) => (f, Outcome::Done(true)),
            Outcome::Done(None) => (r, Outcome::Done(false)),
            _ => (r, Outcome::Failed),
        },
    }
}

/// Delete: the new state, the record with its key cleared, and whether a
/// row was removed.
pub open spec fn delete_op(st: StoreModel, r: RecordModel) -> (StoreModel, RecordModel, Outcome<bool>) {
    match r.id {
        None => (st, r, Outcome::Done(false)),
        Some(k) => match after_delete(st, k) {
            Some((st1, n)) => (
                st1,
                RecordModel { id: None, values: r.values },
                Outcome::Done(changed_any(n)),
            ),
            None => (st, r, Outcome::Failed),
        },
    }
}

proof fn lemma_first_index_absent(names: Seq<Seq<char>>, name: Seq<char>)
    requires
        forall|m: int| 0 <= m < names.len() ==> names[m] != name,
    ensures
        first_index(names, name) == -1,
    decreases names.len(),
{
    if names.len() > 0 {
        lemma_first_index_absent(names.drop_last(), name);
    }
}

proof fn lemma_first_index_at(names: Seq<Seq<char>>, name: Seq<char>, j: int)
    requires
        0 <= j < names.len(),
        names[j] == name,
        forall|m: int| 0 <= m < j ==> names[m] != name,
    ensures
        first_index(names, name) == j,
    decreases names.len(),
{
    if j == names.len() - 1 {
        lemma_first_index_absent(names.drop_last(), name);
    } else {
        lemma_first_index_at(names.drop_last(), name, j);
    }
}

proof fn lemma_decode_columns_found(
    names: Seq<Seq<char>>,
    all: Seq<ValueModel>,
    cols: Seq<Seq<char>>,
    vals: Seq<ValueModel>,
    i: int,
)
    requires
        0 <= i <= cols.len(),
        cols.len() == vals.len(),
        forall|j: int| 0 <= j < cols.len() ==> lookup(names, all, cols[j]) == Some(vals[j]),
    ensures
        decode_columns(names, all, cols.take(i)) == Ok::<Seq<ValueModel>, DecodeFailure>(
            vals.take(i),
        ),
    decreases i,
{
    if i == 0 {
        assert(vals.take(0) =~= Seq::<ValueModel>::empty());
    } else {
        lemma_decode_columns_found(names, all, cols, vals, i - 1);
        assert(cols.take(i).drop_last() =~= cols.take(i - 1));
        assert(vals.take(i) =~= vals.take(i - 1).push(vals[i - 1]));
    }
}

/// A stored row decodes into the record with its key and its values.
proof fn lemma_decode_stored(schema: Schema, k: i64, vals: Seq<ValueModel>)
    requires
        schema.wf(),
        vals.len() == schema.columns@.len(),
    ensures
        decode(
            schema.model(),
            seq![key_name()] + names_of(schema.model().columns),
            seq![ValueModel::Integer(k)] + vals,
        ) == Ok::<RecordModel, DecodeFailure>(RecordModel { id: Some(k), values: vals }),
{
    let cols = names_of(schema.model().columns);
    let names = seq![key_name()] + cols;
    let all = seq![ValueModel::Integer(k)] + vals;
    assert(cols.len() == vals.len());
    lemma_first_index_at(names, key_name(), 0);
    assert(lookup(names, all, key_name()) == Some(ValueModel::Integer(k)));
    assert forall|i: int| 0 <= i < cols.len() implies lookup(names, all, cols[i]) == Some(vals[i]) by {
        assert(cols[i] == schema.columns@[i].name@);
        assert forall|m: int| 0 <= m < i + 1 implies names[m] != cols[i] by {
            if m > 0 {
                assert(names[m] == cols[m - 1]);
            }
        }
        lemma_first_index_at(names, cols[i], i + 1);
    }
    lemma_decode_columns_found(names, all, cols, vals, cols.len() as int);
    assert(cols.take(cols.len() as int) =~= cols);
    assert(vals.take(vals.len() as int) =~= vals);
}

/// A record inserted without a key gets a key under which the table holds a
/// row that reads back as the record, in every field.
pub proof fn lemma_insert_then_get(schema: Schema, st: StoreModel, r: RecordModel)
    requires
        schema.wf(),
        st.exists,
        1 <= st.next_key <= i64::MAX,
        r.id is None,
        r.values.len() == schema.columns@.len(),
    ensures
        ({
            let (st1, r1, out) = insert_op(st, r);
            &&& out matches Outcome::Done(k) && r1.id == Some(k)
            &&& r1.values == r.values
            &&& get_op(st1, schema.model(), r1.id->Some_0) == Outcome::Done(Some(r1))
        }),
{
    let (st1, r1, out) = insert_op(st, r);
    let k = st.next_key as i64;
    assert(insert_params(r).drop_first() =~= r.values);
    assert(st1.rows[k] == r.values);
    lemma_decode_stored(schema, k, r.values);
}

/// After deleting a record's row, the record has no key and no row has its
/// former key.
pub proof fn lemma_delete_then_get(schema: Schema, st: StoreModel, r: RecordModel)
    requires
        st.exists,
        r.id is Some,
    ensures
        ({
            let (st1, r1, out) = delete_op(st, r);
            &&& out is Done
            &&& r1.id is None
            &&& get_op(st1, schema.model(), r.id->Some_0) == Outcome::<Option<RecordModel>>::Done(None)
        }),
{
}

/// Updating a record without a key reports the missing key and leaves the
/// table as it was.
pub proof fn lemma_update_without_key(st: StoreModel, r: RecordModel)
    requires
        r.id is None,
    ensures
        update_op(st, r) == (st, Outcome::<bool>::MissingKey),
{
}

/// Upserting a record without a key is inserting it.
pub proof fn lemma_upsert_without_key(st: StoreModel, r: RecordModel)
    requires
        r.id is None,
    ensures
        upsert_op(st, r) == insert_op(st, r),
{
}

/// Upserting a record whose key has a row updates that row in place and
/// keeps the key.
pub proof fn lemma_upsert_existing(st: StoreModel, r: RecordModel, k: i64)
    requires
        st.exists,
        r.id == Some(k),
        st.rows.contains_key(k),
    ensures
        ({
            let (st1, r1, out) = upsert_op(st, r);
            &&& out == Outcome::Done(k)
            &&& r1 == r
            &&& st1.rows == st.rows.insert(k, r.values)
        }),
{
    assert(update_params(r.values, k).drop_last() =~= r.values);
}

/// Upserting a record whose key lost its row inserts the record again,
/// under a new key that differs from the stale one, where the stale key was
/// one the table had handed out.
pub proof fn lemma_upsert_stale(schema: Schema, st: StoreModel, r: RecordModel, k: i64)
    requires
        schema.wf(),
        st.exists,
        r.id == Some(k),
        !st.rows.contains_key(k),
        k < st.next_key <= i64::MAX,
        1 <= st.next_key,
        r.values.len() == schema.columns@.len(),
    ensures
        ({
            let (st1, r1, out) = upsert_op(st, r);
            &&& out matches Outcome::Done(k1) && k1 != k && r1.id == Some(k1)
            &&& r1.values == r.values
            &&& get_op(st1, schema.model(), r1.id->Some_0) == Outcome::Done(Some(r1))
        }),
{
    let k1 = st.next_key as i64;
    let fresh = RecordModel { id: None, values: r.values };
    let (st1, r1, out) = upsert_op(st, r);
    assert(insert_params(fresh).drop_first() =~= r.values);
    assert(st1.rows[k1] == r.values);
    lemma_decode_stored(schema, k1, r.values);
}

/// Syncing a record whose row holds new values, however they got there,
/// gives the record exactly those values; where the row is gone, the record
/// stays as it was and "not found" is reported.
pub proof fn lemma_sync(schema: Schema, st: StoreModel, r: RecordModel, k: i64)
    requires
        schema.wf(),
        st.exists,
        r.id == Some(k),
        st.rows.contains_key(k) ==> st.rows[k].len() == schema.columns@.len(),
    ensures
        st.rows.contains_key(k) ==> sync_op(st, schema.model(), r) == (
            RecordModel { id: Some(k), values: st.rows[k] },
            Outcome::Done(true),
        ),
        !st.rows.contains_key(k) ==> sync_op(st, schema.model(), r) == (r, Outcome::Done(false)),
{
    if st.rows.contains_key(k) {
        lemma_decode_stored(schema, k, st.rows[k]);
    }
}

/// Dropping a table and creating it again gives an empty table; dropping it
/// twice in a row fails the second time.
pub proof fn lemma_drop_create(st: StoreModel)
    requires
        st.exists,
    ensures
        after_drop(st) matches Some(st1) && after_create(st1) == empty_table()
            && after_create(st1).rows.is_empty(),
        after_drop(st) matches Some(st1) && after_drop(st1) is None,
{
}

} // verus!
