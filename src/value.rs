use vstd::prelude::*;

verus! {

/// A scalar as stored in one column of a row.
#[derive(Clone, Debug, PartialEq, Eq)]
pub enum SqlValue {
    Null,
    Integer(i64),
    Text(String),
    Blob(Vec<u8>),
}

/// The mathematical model of a stored scalar.
pub enum ValueModel {
    Null,
    Integer(i64),
    Text(Seq<char>),
    Blob(Seq<u8>),
}

impl View for SqlValue {
    type V = ValueModel;

    open spec fn view(&self) -> ValueModel {
        match self {
            SqlValue::Null => ValueModel::Null,
            SqlValue::Integer(i) => ValueModel::Integer(*i),
            SqlValue::Text(s) => ValueModel::Text(s@),
            SqlValue::Blob(b) => ValueModel::Blob(b@),
        }
    }
}

/// The models of a sequence of values.
pub open spec fn values_view(v: Seq<SqlValue>) -> Seq<ValueModel> {
    v.map_values(|x: SqlValue| x@)
}

/// The stored scalar that a key stands for: `NULL` when absent.
pub open spec fn key_value(id: Option<i64>) -> ValueModel {
    match id {
        Some(k) => ValueModel::Integer(k),
        None => ValueModel::Null,
    }
}

impl SqlValue {
    /// A copy of the value.
    pub fn duplicate(&self) -> (r: SqlValue)
        ensures
            r@ == self@,
    {
        match self {
            SqlValue::Null => SqlValue::Null,
            SqlValue::Integer(i) => SqlValue::Integer(*i),
            SqlValue::Text(s) => SqlValue::Text(s.clone()),
            SqlValue::Blob(b) => SqlValue::Blob(b.clone()),
        }
    }
}

/// Copies a sequence of values.
pub fn duplicate_values(v: &Vec<SqlValue>) -> (r: Vec<SqlValue>)
    ensures
        values_view(r@) == values_view(v@),
{
    let mut r: Vec<SqlValue> = Vec::new();
    let mut i: usize = 0;
    while i < v.len()
        invariant
            i <= v.len(),
            values_view(r@) == values_view(v@.take(i as int)),
        decreases v.len() - i,
    {
        let x = v[i].duplicate();
        let ghost before = r@;
        r.push(x);
        assert(values_view(r@) =~= values_view(before).push(x@));
        assert(v@.take(i + 1) =~= v@.take(i as int).push(v@[i as int]));
        assert(values_view(v@.take(i + 1)) =~= values_view(v@.take(i as int)).push(v@[i as int]@));
        i = i + 1;
    }
    assert(v@.take(v.len() as int) =~= v@);
    r
}

/// A record instance: its key, and one value per column of its table.
#[derive(Clone, Debug, PartialEq, Eq)]
pub struct Record {
    pub id: Option<i64>,
    pub values: Vec<SqlValue>,
}

/// The mathematical model of a record.
pub struct RecordModel {
    pub id: Option<i64>,
    pub values: Seq<ValueModel>,
}

impl View for Record {
    type V = RecordModel;

    open spec fn view(&self) -> RecordModel {
        RecordModel { id: self.id, values: values_view(self.values@) }
    }
}

impl Record {
    /// A record that has not been stored yet.
    pub fn new(values: Vec<SqlValue>) -> (r: Record)
        ensures
            r.id is None,
            r@.values == values_view(values@),
    {
        Record { id: None, values }
    }
}

} // verus!
