use vstd::prelude::*;
use crate::schema::{Schema, SchemaModel, fields_view, types_of};

verus! {

/// The texts of a list of strings.
pub open spec fn texts(v: Seq<String>) -> Seq<Seq<char>> {
    v.map_values(|s: String| s@)
}

/// The items in order of first occurrence, each once.
pub open spec fn dedup(s: Seq<Seq<char>>) -> Seq<Seq<char>>
    decreases s.len(),
{
    if s.len() == 0 {
        s
    } else {
        let d = dedup(s.drop_last());
        if d.contains(s.last()) {
            d
        } else {
            d.push(s.last())
        }
    }
}

/// The type of every field: the key's first, then the columns' in order.
pub open spec fn field_types(s: SchemaModel) -> Seq<Seq<char>> {
    seq![s.key_type] + types_of(s.columns)
}

/// The field types that the operations require conversions of.
///
/// Writing (create, insert, update, upsert) needs each type to convert to a
/// stored scalar; reading (get by key, sync, decoding a row) needs each type
/// to convert from one. Each type is listed once, however many fields have it.
pub struct Capabilities {
    pub to_storage: Vec<String>,
    pub from_storage: Vec<String>,
}

/// Whether `v` holds a string with the text of `t`.
fn contains_text(v: &Vec<String>, t: &String) -> (r: bool)
    ensures
        r == texts(v@).contains(t@),
{
    let mut i: usize = 0;
    while i < v.len()
        invariant
            i <= v.len(),
            forall|j: int| 0 <= j < i ==> v@[j]@ != t@,
        decreases v.len() - i,
    {
        if v[i] == *t {
            assert(texts(v@)[i as int] == t@);
            return true;
        }
        i = i + 1;
    }
    assert(!texts(v@).contains(t@)) by {
        if texts(v@).contains(t@) {
            let j = choose|j: int| 0 <= j < texts(v@).len() && texts(v@)[j] == t@;
            assert(v@[j]@ == t@);
        }
    }
    false
}

/// Each type once, in order of first occurrence.
pub fn distinct_types(types: &Vec<String>) -> (r: Vec<String>)
    ensures
        texts(r@) == dedup(texts(types@)),
{
    let ghost all = texts(types@);
    let mut r: Vec<String> = Vec::new();
    let mut i: usize = 0;
    while i < types.len()
        invariant
            all == texts(types@),
            i <= types.len(),
            texts(r@) == dedup(all.take(i as int)),
        decreases types.len() - i,
    {
        assert(all.take(i + 1).drop_last() =~= all.take(i as int));
        assert(all.take(i + 1).last() == types@[i as int]@);
        if !contains_text(&r, &types[i]) {
            let ghost before = r@;
            r.push(types[i].clone());
            assert(texts(r@) =~= texts(before).push(types@[i as int]@));
        }
        i = i + 1;
    }
    assert(all.take(types.len() as int) =~= all);
    r
}

/// The conversions that the operations on a schema require of its field types.
pub fn resolve_capabilities(schema: &Schema) -> (r: Capabilities)
    ensures
        texts(r.to_storage@) == dedup(field_types(schema.model())),
        texts(r.from_storage@) == dedup(field_types(schema.model())),
{
    let mut types: Vec<String> = Vec::new();
    types.push(schema.key_type.clone());
    let mut i: usize = 0;
    while i < schema.columns.len()
        invariant
            i <= schema.columns.len(),
            texts(types@) == seq![schema.key_type@] + types_of(fields_view(schema.columns@)).take(
                i as int,
            ),
        decreases schema.columns.len() - i,
    {
        let ghost before = types@;
        types.push(schema.columns[i].ty.clone());
        assert(texts(types@) =~= texts(before).push(schema.columns@[i as int].ty@));
        assert(types_of(fields_view(schema.columns@)).take(i + 1) =~= types_of(
            fields_view(schema.columns@),
        ).take(i as int).push(schema.columns@[i as int].ty@));
        i = i + 1;
    }
    assert(types_of(fields_view(schema.columns@)).take(schema.columns.len() as int) =~= types_of(
        fields_view(schema.columns@),
    ));
    let to_storage = distinct_types(&types);
    let from_storage = distinct_types(&types);
    Capabilities { to_storage, from_storage }
}

} // verus!
