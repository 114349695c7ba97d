use vstd::prelude::*;
use crate::value::{SqlValue, ValueModel, Record, RecordModel, values_view, key_value, duplicate_values};
use crate::schema::{Schema, SchemaModel, key_name, names_of, fields_view};
use crate::capability::texts;

verus! {

/// One row as a query returns it: the column names and the values, in the
/// engine's column order.
pub struct FetchedRow {
    pub names: Vec<String>,
    pub values: Vec<SqlValue>,
}

impl FetchedRow {
    pub open spec fn wf(&self) -> bool {
        self.names.len() == self.values.len()
    }
}

/// Why a fetched row does not decode into a record.
pub enum DecodeFailure {
    /// No column has this name.
    MissingColumn(Seq<char>),
    /// The key column holds neither an integer nor `NULL`.
    InvalidKey,
}

/// The position of the first occurrence of `name`, or -1.
pub open spec fn first_index(names: Seq<Seq<char>>, name: Seq<char>) -> int
    decreases names.len(),
{
    if names.len() == 0 {
        -1
    } else {
        let r = first_index(names.drop_last(), name);
        if r >= 0 {
            r
        } else if names.last() == name {
            names.len() - 1
        } else {
            -1
        }
    }
}

/// The value in the first column named `name`, looked up by name.
pub open spec fn lookup(names: Seq<Seq<char>>, vals: Seq<ValueModel>, name: Seq<char>) -> Option<
    ValueModel,
> {
    let i = first_index(names, name);
    if 0 <= i < vals.len() {
        Some(vals[i])
    } else {
        None
    }
}

/// The key that a stored key column gives.
pub open spec fn decode_key(v: Option<ValueModel>) -> Result<Option<i64>, DecodeFailure> {
    match v {
        None => Err(DecodeFailure::MissingColumn(key_name())),
        Some(ValueModel::Null) => Ok(None),
        Some(ValueModel::Integer(k)) => Ok(Some(k)),
        Some(_) => Err(DecodeFailure::InvalidKey),
    }
}

/// The values of the columns `cols`, each looked up by name; the first
/// missing one is reported.
pub open spec fn decode_columns(
    names: Seq<Seq<char>>,
    vals: Seq<ValueModel>,
    cols: Seq<Seq<char>>,
) -> Result<Seq<ValueModel>, DecodeFailure>
    decreases cols.len(),
{
    if cols.len() == 0 {
        Ok(Seq::empty())
    } else {
        match decode_columns(names, vals, cols.drop_last()) {
            Err(e) => Err(e),
            Ok(vs) => match lookup(names, vals, cols.last()) {
                Some(v) => Ok(vs.push(v)),
                None => Err(DecodeFailure::MissingColumn(cols.last())),
            },
        }
    }
}

/// The record that a row gives: the key first, then each column by name.
pub open spec fn decode(s: SchemaModel, names: Seq<Seq<char>>, vals: Seq<ValueModel>) -> Result<
    RecordModel,
    DecodeFailure,
> {
    match decode_key(lookup(names, vals, key_name())) {
        Err(e) => Err(e),
        Ok(id) => match decode_columns(names, vals, names_of(s.columns)) {
            Err(e) => Err(e),
            Ok(vs) => Ok(RecordModel { id, values: vs }),
        },
    }
}

/// The parameters of the insert statement: the key, then every column.
pub open spec fn insert_params(r: RecordModel) -> Seq<ValueModel> {
    seq![key_value(r.id)] + r.values
}

/// The parameters of the update statement: every column, then the key.
pub open spec fn update_params(values: Seq<ValueModel>, k: i64) -> Seq<ValueModel> {
    values.push(ValueModel::Integer(k))
}

pub proof fn lemma_first_index_range(names: Seq<Seq<char>>, name: Seq<char>)
    ensures
        -1 <= first_index(names, name) < names.len(),
        first_index(names, name) >= 0 ==> names[first_index(names, name)] == name,
    decreases names.len(),
{
    if names.len() > 0 {
        lemma_first_index_range(names.drop_last(), name);
    }
}

/// Once a prefix of the columns fails to decode, all of them fail the same way.
pub proof fn lemma_decode_columns_prefix_err(
    names: Seq<Seq<char>>,
    vals: Seq<ValueModel>,
    cols: Seq<Seq<char>>,
    j: int,
)
    requires
        0 <= j <= cols.len(),
        decode_columns(names, vals, cols.take(j)) is Err,
    ensures
        decode_columns(names, vals, cols) == decode_columns(names, vals, cols.take(j)),
    decreases cols.len(),
{
    if j == cols.len() {
        assert(cols.take(j) =~= cols);
    } else {
        assert(cols.drop_last().take(j) =~= cols.take(j));
        lemma_decode_columns_prefix_err(names, vals, cols.drop_last(), j);
    }
}

/// The position of the first column named `name`.
pub fn column_position(names: &Vec<String>, name: &String) -> (r: Option<usize>)
    ensures
        match r {
            Some(i) => i as int == first_index(texts(names@), name@),
            None => first_index(texts(names@), name@) == -1,
        },
{
    let ghost all = texts(names@);
    let mut found: Option<usize> = None;
    let mut i: usize = 0;
    while i < names.len()
        invariant
            all == texts(names@),
            i <= names.len(),
            first_index(all.take(i as int), name@) == match found {
                Some(j) => j as int,
                None => -1,
            },
        decreases names.len() - i,
    {
        assert(all.take(i + 1).drop_last() =~= all.take(i as int));
        if found.is_none() && names[i] == *name {
            found = Some(i);
        }
        i = i + 1;
    }
    assert(all.take(names.len() as int) =~= all);
    found
}

/// A copy of the value at a position found by `column_position`.
fn value_at(row: &FetchedRow, name: &String) -> (r: Option<SqlValue>)
    requires
        row.wf(),
    ensures
        match r {
            Some(v) => lookup(texts(row.names@), values_view(row.values@), name@) == Some(v@),
            None => lookup(texts(row.names@), values_view(row.values@), name@) is None,
        },
{
    proof {
        lemma_first_index_range(texts(row.names@), name@);
    }
    match column_position(&row.names, name) {
        Some(i) => Some(row.values[i].duplicate()),
        None => None,
    }
}

/// The decoded record, or why the row does not decode, as `decode` has it.
pub open spec fn decode_agrees(r: Result<Record, DecodeError>, m: Result<RecordModel, DecodeFailure>) -> bool {
    match (r, m) {
        (Ok(rec), Ok(mr)) => rec@ == mr,
        (Err(DecodeError::MissingColumn(n)), Err(DecodeFailure::MissingColumn(mn))) => n@ == mn,
        (Err(DecodeError::InvalidKey), Err(DecodeFailure::InvalidKey)) => true,
        _ => false,
    }
}

/// Why a fetched row does not decode into a record.
#[derive(Debug, PartialEq, Eq)]
pub enum DecodeError {
    /// No column has this name.
    MissingColumn(String),
    /// The key column holds neither an integer nor `NULL`.
    InvalidKey,
}

pub(crate) fn key_name_string() -> (r: String)
    ensures
        r@ == key_name(),
{
    proof {
        reveal_strlit("id");
    }
    let r = String::from_str("id");
    assert(r@ =~= key_name());
    r
}

/// Converts a retrieved row into a record, looking up each field by its name
/// rather than by its position.
pub fn decode_row(schema: &Schema, row: &FetchedRow) -> (r: Result<Record, DecodeError>)
    requires
        row.wf(),
    ensures
        decode_agrees(r, decode(schema.model(), texts(row.names@), values_view(row.values@))),
        r matches Ok(rec) ==> rec.values.len() == schema.columns.len(),
{
    let ghost names = texts(row.names@);
    let ghost vals = values_view(row.values@);
    let ghost cols = names_of(fields_view(schema.columns@));
    let key = key_name_string();
    let id: Option<i64> = match value_at(row, &key) {
        None => {
            return Err(DecodeError::MissingColumn(key));
        },
        Some(SqlValue::Null) => None,
        Some(SqlValue::Integer(k)) => Some(k),
        Some(_) => {
            return Err(DecodeError::InvalidKey);
        },
    };
    let mut values: Vec<SqlValue> = Vec::new();
    assert(values_view(values@) =~= Seq::<ValueModel>::empty());
    assert(cols.take(0).len() == 0);
    let mut i: usize = 0;
    while i < schema.columns.len()
        invariant
            row.wf(),
            names == texts(row.names@),
            vals == values_view(row.values@),
            cols == names_of(fields_view(schema.columns@)),
            i <= schema.columns.len(),
            values.len() == i,
            decode_key(lookup(names, vals, key_name())) == Ok::<Option<i64>, DecodeFailure>(id),
            decode_columns(names, vals, cols.take(i as int)) == Ok::<Seq<ValueModel>, DecodeFailure>(
                values_view(values@),
            ),
        decreases schema.columns.len() - i,
    {
        assert(cols.take(i + 1).drop_last() =~= cols.take(i as int));
        assert(cols.take(i + 1).last() == schema.columns@[i as int].name@);
        match value_at(row, &schema.columns[i].name) {
            None => {
                proof {
                    lemma_decode_columns_prefix_err(names, vals, cols, i + 1);
                }
                return Err(DecodeError::MissingColumn(schema.columns[i].name.clone()));
            },
            Some(v) => {
                let ghost before = values@;
                values.push(v);
                assert(values_view(values@) =~= values_view(before).push(v@));
            },
        }
        i = i + 1;
    }
    assert(cols.take(schema.columns.len() as int) =~= cols);
    Ok(Record { id, values })
}

/// The parameters of the insert statement for a record.
pub fn bind_insert(rec: &Record) -> (r: Vec<SqlValue>)
    ensures
        values_view(r@) == insert_params(rec@),
{
    let mut r: Vec<SqlValue> = Vec::new();
    match rec.id {
        Some(k) => r.push(SqlValue::Integer(k)),
        None => r.push(SqlValue::Null),
    }
    let mut i: usize = 0;
    while i < rec.values.len()
        invariant
            i <= rec.values.len(),
            values_view(r@) == seq![key_value(rec.id)] + values_view(rec.values@).take(i as int),
        decreases rec.values.len() - i,
    {
        let v = rec.values[i].duplicate();
        let ghost before = r@;
        r.push(v);
        assert(values_view(r@) =~= values_view(before).push(v@));
        assert(values_view(rec.values@).take(i + 1) =~= values_view(rec.values@).take(i as int).push(
            v@,
        ));
        i = i + 1;
    }
    assert(values_view(rec.values@).take(rec.values.len() as int) =~= values_view(rec.values@));
    r
}

/// The parameters of the update statement for the values of a record with key `k`.
pub fn bind_update(values: &Vec<SqlValue>, k: i64) -> (r: Vec<SqlValue>)
    ensures
        values_view(r@) == update_params(values_view(values@), k),
{
    let mut r = duplicate_values(values);
    let ghost before = r@;
    r.push(SqlValue::Integer(k));
    assert(values_view(r@) =~= values_view(before).push(ValueModel::Integer(k)));
    r
}

} // verus!
