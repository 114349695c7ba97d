use vstd::prelude::*;
use crate::value::{SqlValue, ValueModel, Record, RecordModel, values_view};
use crate::schema::{
    RecordDesc, Schema, SchemaModel, SchemaError, analyze, valid_desc, reports, key_name, schema_of,
};
use crate::capability::{Capabilities, resolve_capabilities, texts, dedup, field_types};
use crate::sql::{Statements, synthesize};
use crate::row::{
    FetchedRow, DecodeError, DecodeFailure, decode, decode_agrees, decode_row, bind_insert,
    bind_update, insert_params, update_params,
};
use crate::sql::{create_sql, insert_sql, update_sql, select_sql, delete_sql, drop_sql};
use crate::engine::{
    from_engine_value, execute, last_insert_rowid, prepare, column_index, query, next_row, row_value,
};

verus! {

/// What an operation on a table can fail with.
#[derive(Debug)]
pub enum DbError {
    /// The record has no key, so there is no row to act on.
    MissingKey,
    /// A fetched row does not decode into a record.
    Decode(DecodeError),
    /// A fetched value is a floating-point number, which a record cannot hold.
    UnsupportedValue,
    /// The storage engine failed; its error is passed on unchanged.
    Engine(rusqlite::Error),
}

/// The operation set of one record type: its schema, the statements
/// rendered from it, and the conversions it requires of field types.
pub struct Table {
    pub schema: Schema,
    pub statements: Statements,
    pub capabilities: Capabilities,
}

impl Table {
    pub open spec fn wf(&self) -> bool {
        &&& self.schema.wf()
        &&& self.statements.renders(self.schema.model())
        &&& texts(self.capabilities.to_storage@) == dedup(field_types(self.schema.model()))
        &&& texts(self.capabilities.from_storage@) == dedup(field_types(self.schema.model()))
    }
}

/// Derives the operation set of a record type from its description: the
/// schema, every statement text, and the required conversions.
pub fn derive_table(d: &RecordDesc) -> (r: Result<Table, SchemaError>)
    ensures
        r is Ok <==> valid_desc(*d),
        r matches Err(e) ==> reports(*d, e),
        match r {
            Ok(t) => t.wf() && forall|k: int|
                0 <= k < d.fields.len() && #[trigger] d.fields@[k].name@ == key_name()
                    ==> t.schema.model() == schema_of(*d, k),
            Err(_) => true,
        },
{
    let schema = match analyze(d) {
        Ok(s) => s,
        Err(e) => {
            return Err(e);
        },
    };
    let statements = synthesize(&schema);
    let capabilities = resolve_capabilities(&schema);
    Ok(Table { schema, statements, capabilities })
}

/// A statement and its positional parameters, as handed to the engine.
pub struct Request {
    pub sql: String,
    pub params: Vec<SqlValue>,
}

/// `q` is the statement `sql` with the parameters `params`.
pub open spec fn is_request(q: Request, sql: Seq<char>, params: Seq<ValueModel>) -> bool {
    q.sql@ == sql && values_view(q.params@) == params
}

/// Whether a statement changed any row, from the count the engine reports.
pub open spec fn changed_any(n: nat) -> bool {
    n > 0
}

/// The record stored anew: its values, with no key, so the engine assigns one.
pub open spec fn fresh_record(r: RecordModel) -> RecordModel {
    RecordModel { id: None, values: r.values }
}

/// What upsert does once the update has run on key `k`: keep the key where
/// a row was changed, else insert the record with its key cleared.
pub enum UpsertStep {
    Keep(i64),
    InsertFresh(Record),
}

/// The result of an update, from the number of rows the engine changed.
pub fn update_outcome(changed: usize) -> (r: bool)
    ensures
        r == changed_any(changed as nat),
{
    changed > 0
}

/// Clears the record's key once the delete statement has run; reports
/// whether the engine removed a row.
pub fn finish_delete(rec: &mut Record, removed: usize) -> (r: bool)
    ensures
        r == changed_any(removed as nat),
        final(rec).id is None,
        final(rec).values == old(rec).values,
{
    rec.id = None;
    removed > 0
}

/// The step upsert takes after updating the row with key `k`.
pub fn upsert_step(rec: &Record, k: i64, updated: bool) -> (r: UpsertStep)
    ensures
        updated ==> r == UpsertStep::Keep(k),
        !updated ==> (r matches UpsertStep::InsertFresh(f) && f@ == fresh_record(rec@)),
{
    if updated {
        UpsertStep::Keep(k)
    } else {
        UpsertStep::InsertFresh(Record::new(crate::value::duplicate_values(&rec.values)))
    }
}

/// The names and result positions of the wanted fields that the result has
/// a column for, in the order wanted.
pub open spec fn kept_names(wanted: Seq<Seq<char>>, found: Seq<Option<usize>>) -> Seq<Seq<char>>
    decreases wanted.len(),
{
    if wanted.len() == 0 {
        Seq::empty()
    } else {
        let rest = kept_names(wanted.drop_last(), found);
        if found[wanted.len() - 1] is Some {
            rest.push(wanted.last())
        } else {
            rest
        }
    }
}

pub open spec fn kept_positions(wanted: Seq<Seq<char>>, found: Seq<Option<usize>>) -> Seq<usize>
    decreases wanted.len(),
{
    if wanted.len() == 0 {
        Seq::empty()
    } else {
        let rest = kept_positions(wanted.drop_last(), found);
        match found[wanted.len() - 1] {
            Some(p) => rest.push(p),
            None => rest,
        }
    }
}

/// Pairs each wanted field name with the result position found for it,
/// leaving out those that the result has no column for.
pub fn keep_found(wanted: &Vec<String>, found: &Vec<Option<usize>>) -> (r: (Vec<String>, Vec<usize>))
    requires
        wanted.len() == found.len(),
    ensures
        texts(r.0@) == kept_names(texts(wanted@), found@),
        r.1@ == kept_positions(texts(wanted@), found@),
{
    let ghost w = texts(wanted@);
    let mut names: Vec<String> = Vec::new();
    let mut positions: Vec<usize> = Vec::new();
    let mut i: usize = 0;
    while i < wanted.len()
        invariant
            w == texts(wanted@),
            wanted.len() == found.len(),
            i <= wanted.len(),
            texts(names@) == kept_names(w.take(i as int), found@),
            positions@ == kept_positions(w.take(i as int), found@),
        decreases wanted.len() - i,
    {
        assert(w.take(i + 1).drop_last() =~= w.take(i as int));
        match found[i] {
            Some(p) => {
                let ghost before = names@;
                names.push(wanted[i].clone());
                positions.push(p);
                assert(texts(names@) =~= texts(before).push(wanted@[i as int]@));
            },
            None => {},
        }
        i = i + 1;
    }
    assert(w.take(wanted.len() as int) =~= w);
    (names, positions)
}

/// `r` is what a query's answer gives: nothing for no row, else the row
/// decoded by `decode`, or why it does not decode.
pub open spec fn found_agrees(s: SchemaModel, fetched: Option<FetchedRow>, r: Result<Option<Record>, DbError>) -> bool {
    match fetched {
        None => r matches Ok(None),
        Some(row) => match r {
            Ok(Some(rec)) => decode_agrees(Ok(rec), decode(s, texts(row.names@), values_view(row.values@))),
            Err(DbError::Decode(e)) => decode_agrees(Err(e), decode(s, texts(row.names@), values_view(row.values@))),
            _ => false,
        },
    }
}

/// The result of a read by key, from the row the query returned, if any.
pub fn found_record(schema: &Schema, fetched: Option<FetchedRow>) -> (r: Result<Option<Record>, DbError>)
    requires
        fetched matches Some(row) ==> row.wf(),
    ensures
        found_agrees(schema.model(), fetched, r),
        r matches Ok(Some(rec)) ==> rec.values.len() == schema.columns.len(),
{
    match fetched {
        None => Ok(None),
        Some(row) => match decode_row(schema, &row) {
            Ok(rec) => Ok(Some(rec)),
            Err(e) => Err(DbError::Decode(e)),
        },
    }
}

/// Puts the row read back for a record's key into the record; without one
/// the record stays as it was. Reports whether a row was there.
pub fn apply_fetched(rec: &mut Record, fetched: Option<Record>) -> (r: bool)
    ensures
        r == fetched is Some,
        match fetched {
            Some(f) => *final(rec) == f,
            None => *final(rec) == *old(rec),
        },
{
    match fetched {
        Some(f) => {
            *rec = f;
            true
        },
        None => false,
    }
}

impl Table {
    /// The create statement, with no parameters.
    pub fn create_request(&self) -> (r: Request)
        requires
            self.wf(),
        ensures
            is_request(r, create_sql(self.schema.model()), Seq::empty()),
    {
        let r = Request { sql: self.statements.create.clone(), params: Vec::new() };
        assert(values_view(r.params@) =~= Seq::empty());
        r
    }

    /// The insert statement, with the key and every column of the record.
    pub fn insert_request(&self, rec: &Record) -> (r: Request)
        requires
            self.wf(),
        ensures
            is_request(r, insert_sql(self.schema.model()), insert_params(rec@)),
    {
        Request { sql: self.statements.insert.clone(), params: bind_insert(rec) }
    }

    /// The update statement, with every column of the record and then its
    /// key; none for a record without a key.
    pub fn update_request(&self, rec: &Record) -> (r: Option<Request>)
        requires
            self.wf(),
        ensures
            rec.id is None <==> r is None,
            rec.id matches Some(k) ==> (r matches Some(q) && is_request(
                q,
                update_sql(self.schema.model()),
                update_params(rec@.values, k),
            )),
    {
        match rec.id {
            None => None,
            Some(k) => Some(Request { sql: self.statements.update.clone(), params: bind_update(&rec.values, k) }),
        }
    }

    /// The select statement for key `k`.
    pub fn select_request(&self, k: i64) -> (r: Request)
        requires
            self.wf(),
        ensures
            is_request(r, select_sql(self.schema.model()), seq![ValueModel::Integer(k)]),
    {
        let r = Request { sql: self.statements.select_by_key.clone(), params: vec![SqlValue::Integer(k)] };
        assert(values_view(r.params@) =~= seq![ValueModel::Integer(k)]);
        r
    }

    /// The delete statement for key `k`.
    pub fn delete_by_id_request(&self, k: i64) -> (r: Request)
        requires
            self.wf(),
        ensures
            is_request(r, delete_sql(self.schema.model()), seq![ValueModel::Integer(k)]),
    {
        let r = Request { sql: self.statements.delete_by_key.clone(), params: vec![SqlValue::Integer(k)] };
        assert(values_view(r.params@) =~= seq![ValueModel::Integer(k)]);
        r
    }

    /// The delete statement for the record's key; none for a record without one.
    pub fn delete_request(&self, rec: &Record) -> (r: Option<Request>)
        requires
            self.wf(),
        ensures
            rec.id is None <==> r is None,
            rec.id matches Some(k) ==> (r matches Some(q) && is_request(
                q,
                delete_sql(self.schema.model()),
                seq![ValueModel::Integer(k)],
            )),
    {
        match rec.id {
            None => None,
            Some(k) => Some(self.delete_by_id_request(k)),
        }
    }

    /// The drop statement, with no parameters.
    pub fn drop_request(&self) -> (r: Request)
        requires
            self.wf(),
        ensures
            is_request(r, drop_sql(self.schema.model()), Seq::empty()),
    {
        let r = Request { sql: self.statements.drop.clone(), params: Vec::new() };
        assert(values_view(r.params@) =~= Seq::empty());
        r
    }

    /// Runs one request that returns no rows.
    fn run(&self, conn: &rusqlite::Connection, q: &Request) -> (r: Result<usize, DbError>)
        ensures
            r matches Err(e) ==> e is Engine,
    {
        match execute(conn, &q.sql, &q.params) {
            Ok(n) => Ok(n),
            Err(e) => Err(DbError::Engine(e)),
        }
    }

    /// The names of the key and every column, in order.
    fn field_names(&self) -> (r: Vec<String>)
        ensures
            r.len() == self.schema.columns.len() + 1,
    {
        let mut r: Vec<String> = Vec::new();
        r.push(crate::row::key_name_string());
        let mut i: usize = 0;
        while i < self.schema.columns.len()
            invariant
                i <= self.schema.columns.len(),
                r.len() == i + 1,
            decreases self.schema.columns.len() - i,
        {
            r.push(self.schema.columns[i].name.clone());
            i = i + 1;
        }
        r
    }

    /// Runs the select request for key `k` and reads the row it returns, if
    /// any: the value of each field that the result has a column for, under
    /// the field's name (`keep_found`), read from that column.
    fn fetch_by_key(&self, conn: &rusqlite::Connection, k: i64) -> (r: Result<Option<FetchedRow>, DbError>)
        requires
            self.wf(),
        ensures
            r matches Ok(Some(row)) ==> row.wf(),
            r matches Err(e) ==> (e is Engine || e is UnsupportedValue),
    {
        let q = self.select_request(k);
        let mut stmt = match prepare(conn, &q.sql) {
            Ok(s) => s,
            Err(e) => {
                return Err(DbError::Engine(e));
            },
        };
        let wanted = self.field_names();
        let mut found: Vec<Option<usize>> = Vec::new();
        let mut i: usize = 0;
        while i < wanted.len()
            invariant
                i <= wanted.len(),
                found.len() == i,
            decreases wanted.len() - i,
        {
            found.push(column_index(&stmt, &wanted[i]));
            i = i + 1;
        }
        let (names, positions) = keep_found(&wanted, &found);
        proof {
            lemma_kept_lengths(texts(wanted@), found@);
        }
        let mut rows = match query(&mut stmt, &q.params) {
            Ok(rows) => rows,
            Err(e) => {
                return Err(DbError::Engine(e));
            },
        };
        let row = match next_row(&mut rows) {
            Ok(Some(row)) => row,
            Ok(None) => {
                return Ok(None);
            },
            Err(e) => {
                return Err(DbError::Engine(e));
            },
        };
        let mut values: Vec<SqlValue> = Vec::new();
        let mut j: usize = 0;
        while j < positions.len()
            invariant
                j <= positions.len(),
                values.len() == j,
            decreases positions.len() - j,
        {
            let v = match row_value(row, positions[j]) {
                Ok(v) => v,
                Err(e) => {
                    return Err(DbError::Engine(e));
                },
            };
            match from_engine_value(v) {
                Some(x) => values.push(x),
                None => {
                    return Err(DbError::UnsupportedValue);
                },
            }
            j = j + 1;
        }
        Ok(Some(FetchedRow { names, values }))
    }

    /// Creates the table if it does not exist yet; repeated calls succeed.
    /// Runs `create_request`.
    pub fn create_table(&self, conn: &rusqlite::Connection) -> (r: Result<(), DbError>)
        requires
            self.wf(),
        ensures
            r matches Err(e) ==> e is Engine,
    {
        let q = self.create_request();
        match self.run(conn, &q) {
            Ok(_) => Ok(()),
            Err(e) => Err(e),
        }
    }

    /// Inserts the record as a new row, whatever its key, and sets its key
    /// to the one the engine assigned. Returns that key. Runs `insert_request`.
    pub fn insert(&self, conn: &rusqlite::Connection, rec: &mut Record) -> (r: Result<i64, DbError>)
        requires
            self.wf(),
        ensures
            match r {
                Ok(k) => final(rec).id == Some(k) && final(rec).values == old(rec).values,
                Err(e) => e is Engine && *final(rec) == *old(rec),
            },
    {
        let q = self.insert_request(rec);
        match self.run(conn, &q) {
            Ok(_) => {},
            Err(e) => {
                return Err(e);
            },
        }
        let k = last_insert_rowid(conn);
        rec.id = Some(k);
        Ok(k)
    }

    /// Writes every column of the record into the row with its key. Reports
    /// whether a row was changed (`update_outcome` of the engine's count).
    /// Runs `update_request`; a record without a key has none, runs no
    /// statement and gives `MissingKey`.
    pub fn update(&self, conn: &rusqlite::Connection, rec: &Record) -> (r: Result<bool, DbError>)
        requires
            self.wf(),
        ensures
            rec.id is None <==> r matches Err(DbError::MissingKey),
            rec.id is Some ==> (r matches Err(e) ==> e is Engine),
    {
        let q = match self.update_request(rec) {
            Some(q) => q,
            None => {
                return Err(DbError::MissingKey);
            },
        };
        match self.run(conn, &q) {
            Ok(changed) => Ok(update_outcome(changed)),
            Err(e) => Err(e),
        }
    }

    /// Inserts a record without a key; updates the row of a record with one,
    /// and where no row was changed inserts `fresh_record` of it, which the
    /// engine gives a new key (`upsert_step`). Returns the record's key.
    pub fn upsert(&self, conn: &rusqlite::Connection, rec: &mut Record) -> (r: Result<i64, DbError>)
        requires
            self.wf(),
        ensures
            match r {
                Ok(k) => final(rec).id == Some(k) && final(rec).values == old(rec).values,
                Err(e) => e is Engine && *final(rec) == *old(rec),
            },
            old(rec).id matches Some(k) && r matches Ok(k1) && k1 == k ==> *final(rec) == *old(rec),
    {
        let k = match rec.id {
            None => {
                return self.insert(conn, rec);
            },
            Some(k) => k,
        };
        let updated = match self.update(conn, rec) {
            Ok(b) => b,
            Err(e) => {
                return Err(e);
            },
        };
        match upsert_step(rec, k, updated) {
            UpsertStep::Keep(k) => Ok(k),
            UpsertStep::InsertFresh(mut fresh) => {
                let k1 = match self.insert(conn, &mut fresh) {
                    Ok(k1) => k1,
                    Err(e) => {
                        return Err(e);
                    },
                };
                rec.id = Some(k1);
                Ok(k1)
            },
        }
    }

    /// Reads the row with the record's key back into the record, key
    /// included (`get_by_id`, then `apply_fetched`). Reports `false`, leaving
    /// the record as it was, where the record has no key (no statement runs)
    /// or no row has it.
    pub fn sync(&self, conn: &rusqlite::Connection, rec: &mut Record) -> (r: Result<bool, DbError>)
        requires
            self.wf(),
        ensures
            old(rec).id is None ==> r matches Ok(false),
            r matches Ok(true) ==> old(rec).id is Some && final(rec).values.len()
                == self.schema.columns.len() && is_row_of(self.schema.model(), final(rec)@),
            !(r matches Ok(true)) ==> *final(rec) == *old(rec),
    {
        let k = match rec.id {
            None => {
                return Ok(false);
            },
            Some(k) => k,
        };
        let fetched = match self.get_by_id(conn, k) {
            Ok(f) => f,
            Err(e) => {
                return Err(e);
            },
        };
        Ok(apply_fetched(rec, fetched))
    }

    /// The record stored under key `k`: runs `select_request`, reads the row
    /// by field name, and hands the answer to `found_record`: `None` where no
    /// row has that key, else the row decoded by name.
    pub fn get_by_id(&self, conn: &rusqlite::Connection, k: i64) -> (r: Result<Option<Record>, DbError>)
        requires
            self.wf(),
        ensures
            r matches Ok(Some(rec)) ==> rec.values.len() == self.schema.columns.len() && is_row_of(
                self.schema.model(),
                rec@,
            ),
    {
        let fetched = match self.fetch_by_key(conn, k) {
            Ok(f) => f,
            Err(e) => {
                return Err(e);
            },
        };
        let ghost g = fetched;
        let r = found_record(&self.schema, fetched);
        proof {
            if r is Ok && r->Ok_0 is Some {
                    let rec = r->Ok_0->Some_0;
                    let row = g->Some_0;
                    assert(decode(self.schema.model(), texts(row.names@), values_view(row.values@))
                        == Ok::<RecordModel, DecodeFailure>(rec@));
                    assert(row.wf());
            }
        }
        r
    }

    /// Deletes the row with the record's key and clears the key
    /// (`finish_delete`). Reports whether a row was removed. Runs
    /// `delete_request`; a record without a key has none and is left alone.
    pub fn delete(&self, conn: &rusqlite::Connection, rec: &mut Record) -> (r: Result<bool, DbError>)
        requires
            self.wf(),
        ensures
            old(rec).id is None ==> (r matches Ok(false)) && *final(rec) == *old(rec),
            old(rec).id is Some && r is Ok ==> final(rec).id is None && final(rec).values == old(
                rec,
            ).values,
            r matches Err(e) ==> e is Engine && *final(rec) == *old(rec),
    {
        let q = match self.delete_request(rec) {
            Some(q) => q,
            None => {
                return Ok(false);
            },
        };
        match self.run(conn, &q) {
            Ok(removed) => Ok(finish_delete(rec, removed)),
            Err(e) => Err(e),
        }
    }

    /// Deletes the row with key `k`, if there is one. Runs `delete_by_id_request`.
    pub fn delete_by_id(&self, conn: &rusqlite::Connection, k: i64) -> (r: Result<(), DbError>)
        requires
            self.wf(),
        ensures
            r matches Err(e) ==> e is Engine,
    {
        let q = self.delete_by_id_request(k);
        match self.run(conn, &q) {
            Ok(_) => Ok(()),
            Err(e) => Err(e),
        }
    }

    /// Drops the table; where there is no such table the engine's error is
    /// returned. Runs `drop_request`.
    pub fn drop_table(&self, conn: &rusqlite::Connection) -> (r: Result<(), DbError>)
        requires
            self.wf(),
        ensures
            r matches Err(e) ==> e is Engine,
    {
        let q = self.drop_request();
        match self.run(conn, &q) {
            Ok(_) => Ok(()),
            Err(e) => Err(e),
        }
    }
}

/// The record is what `decode` gives for some well-formed fetched row.
pub open spec fn is_row_of(s: SchemaModel, r: RecordModel) -> bool {
    exists|row: FetchedRow|
        row.wf() && #[trigger] decode(s, texts(row.names@), values_view(row.values@)) == Ok::<
            RecordModel,
            DecodeFailure,
        >(r)
}

proof fn lemma_kept_lengths(wanted: Seq<Seq<char>>, found: Seq<Option<usize>>)
    requires
        wanted.len() <= found.len(),
    ensures
        kept_names(wanted, found).len() == kept_positions(wanted, found).len(),
    decreases wanted.len(),
{
    if wanted.len() > 0 {
        lemma_kept_lengths(wanted.drop_last(), found);
    }
}

} // verus!
