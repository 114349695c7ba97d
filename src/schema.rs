use vstd::prelude::*;

verus! {

/// One named, typed field of a record type, as written in its declaration.
#[derive(Clone, Debug)]
pub struct FieldDesc {
    pub name: String,
    pub ty: String,
}

/// A record-type description: the type's name, whether it is a product type
/// with named fields, and its fields in declaration order.
pub struct RecordDesc {
    pub name: String,
    pub named_fields: bool,
    pub fields: Vec<FieldDesc>,
}

/// The validated mapping of a record type onto one table.
pub struct Schema {
    pub table_name: String,
    /// Position of the key field among the declared fields.
    pub key_position: usize,
    /// The key field's type, as written.
    pub key_type: String,
    /// Every field but the key, in declaration order.
    pub columns: Vec<FieldDesc>,
}

/// Why a record-type description does not describe a table.
#[derive(Debug, PartialEq, Eq)]
pub enum SchemaError {
    /// The type is not a record with named fields.
    NotNamedRecord,
    /// A field name occurs more than once; the name is given.
    DuplicateField(String),
    /// No field is named `id`.
    MissingKey,
    /// The field `id` is not of type `Option<i64>`; its type is given.
    MistypedKey(String),
}

pub open spec fn field_view(f: FieldDesc) -> (Seq<char>, Seq<char>) {
    (f.name@, f.ty@)
}

/// The (name, type) pairs of a list of fields.
pub open spec fn fields_view(fs: Seq<FieldDesc>) -> Seq<(Seq<char>, Seq<char>)> {
    fs.map_values(|f: FieldDesc| field_view(f))
}

pub open spec fn names_of(fs: Seq<(Seq<char>, Seq<char>)>) -> Seq<Seq<char>> {
    fs.map_values(|f: (Seq<char>, Seq<char>)| f.0)
}

pub open spec fn types_of(fs: Seq<(Seq<char>, Seq<char>)>) -> Seq<Seq<char>> {
    fs.map_values(|f: (Seq<char>, Seq<char>)| f.1)
}

/// The name of the key field.
pub open spec fn key_name() -> Seq<char> {
    seq!['i', 'd']
}

/// The key field's required type, without white space.
pub open spec fn key_type_text() -> Seq<char> {
    seq!['O', 'p', 't', 'i', 'o', 'n', '<', 'i', '6', '4', '>']
}

pub open spec fn is_space(c: char) -> bool {
    c == ' ' || c == '\t' || c == '\n' || c == '\r'
}

/// The text with all white space removed.
pub open spec fn strip_spaces(s: Seq<char>) -> Seq<char>
    decreases s.len(),
{
    if s.len() == 0 {
        s
    } else if is_space(s.last()) {
        strip_spaces(s.drop_last())
    } else {
        strip_spaces(s.drop_last()).push(s.last())
    }
}

/// Whether a type, written with any white space between its tokens, is `Option<i64>`.
pub open spec fn is_key_type(t: Seq<char>) -> bool {
    strip_spaces(t) == key_type_text()
}

/// The name at `j` occurs at an earlier position too.
pub open spec fn repeats_earlier(names: Seq<Seq<char>>, j: int) -> bool {
    exists|i: int| 0 <= i < j && names[i] == names[j]
}

/// `j` is the first position whose name repeats an earlier one.
pub open spec fn first_repeat(names: Seq<Seq<char>>, j: int) -> bool {
    &&& 0 <= j < names.len()
    &&& repeats_earlier(names, j)
    &&& forall|k: int| 0 <= k < j ==> !repeats_earlier(names, k)
}

pub open spec fn all_distinct(names: Seq<Seq<char>>) -> bool {
    forall|i: int, j: int| 0 <= i < j < names.len() ==> names[i] != names[j]
}

/// `r` reports the duplicate field name `n`.
pub open spec fn is_duplicate_error(r: Result<Schema, SchemaError>, n: Seq<char>) -> bool {
    match r {
        Err(SchemaError::DuplicateField(s)) => s@ == n,
        _ => false,
    }
}

/// A record-type description that analysis accepts.
pub open spec fn valid_desc(d: RecordDesc) -> bool {
    &&& d.named_fields
    &&& all_distinct(names_of(fields_view(d.fields@)))
    &&& exists|k: int|
        0 <= k < d.fields.len() && #[trigger] d.fields@[k].name@ == key_name() && is_key_type(
            d.fields@[k].ty@,
        )
}

/// `e` is the error that analysis reports for `d`: the first rule broken,
/// in the order not a record, duplicate field, missing key, mistyped key.
pub open spec fn reports(d: RecordDesc, e: SchemaError) -> bool {
    let names = names_of(fields_view(d.fields@));
    if !d.named_fields {
        e is NotNamedRecord
    } else if !all_distinct(names) {
        exists|j: int|
            #[trigger] first_repeat(names, j) && (e matches SchemaError::DuplicateField(n)
                && n@ == names[j])
    } else if forall|m: int| 0 <= m < d.fields.len() ==> d.fields@[m].name@ != key_name() {
        e is MissingKey
    } else {
        exists|k: int|
            0 <= k < d.fields.len() && #[trigger] d.fields@[k].name@ == key_name() && !is_key_type(
                d.fields@[k].ty@,
            ) && (e matches SchemaError::MistypedKey(t) && t@ == d.fields@[k].ty@)
    }
}

/// The fields without the one at position `k`.
pub open spec fn without<A>(s: Seq<A>, k: int) -> Seq<A> {
    s.take(k) + s.skip(k + 1)
}

/// The model of a schema: table name, key position and type, columns.
pub struct SchemaModel {
    pub table_name: Seq<char>,
    pub key_position: int,
    pub key_type: Seq<char>,
    pub columns: Seq<(Seq<char>, Seq<char>)>,
}

impl Schema {
    pub open spec fn model(&self) -> SchemaModel {
        SchemaModel {
            table_name: self.table_name@,
            key_position: self.key_position as int,
            key_type: self.key_type@,
            columns: fields_view(self.columns@),
        }
    }

    /// The column names, in order.
    pub open spec fn column_names(&self) -> Seq<Seq<char>> {
        names_of(fields_view(self.columns@))
    }

    /// A schema that analysis can produce: its column names are distinct,
    /// none of them is the key's, and its key type is `Option<i64>`.
    pub open spec fn wf(&self) -> bool {
        &&& all_distinct(self.column_names())
        &&& self.columns@.len() < usize::MAX
        &&& forall|i: int| 0 <= i < self.columns@.len() ==> self.columns@[i].name@ != key_name()
        &&& is_key_type(self.key_type@)
    }
}

/// The schema that a valid description gives: the key at position `k`.
pub open spec fn schema_of(d: RecordDesc, k: int) -> SchemaModel {
    SchemaModel {
        table_name: d.name@,
        key_position: k,
        key_type: d.fields@[k].ty@,
        columns: without(fields_view(d.fields@), k),
    }
}

/// Whether `name` is `id`.
pub fn is_key_name(name: &String) -> (r: bool)
    ensures
        r == (name@ == key_name()),
{
    let s = name.as_str();
    if s.unicode_len() != 2 {
        return false;
    }
    let a = s.get_char(0);
    let b = s.get_char(1);
    let r = a == 'i' && b == 'd';
    assert(r ==> s@ =~= key_name());
    r
}

/// The characters of `t` that are not white space.
fn strip_spaces_of(t: &String) -> (r: Vec<char>)
    ensures
        r@ == strip_spaces(t@),
{
    let s = t.as_str();
    let n = s.unicode_len();
    let mut r: Vec<char> = Vec::new();
    let mut i: usize = 0;
    while i < n
        invariant
            n == s@.len(),
            i <= n,
            r@ == strip_spaces(s@.take(i as int)),
        decreases n - i,
    {
        let c = s.get_char(i);
        assert(s@.take(i as int + 1).drop_last() =~= s@.take(i as int));
        if !(c == ' ' || c == '\t' || c == '\n' || c == '\r') {
            r.push(c);
        }
        i = i + 1;
    }
    assert(s@.take(n as int) =~= s@);
    r
}

/// Whether the type text `t` is `Option<i64>`, white space aside.
pub fn check_key_type(t: &String) -> (r: bool)
    ensures
        r == is_key_type(t@),
{
    let v = strip_spaces_of(t);
    let expected: Vec<char> = vec!['O', 'p', 't', 'i', 'o', 'n', '<', 'i', '6', '4', '>'];
    assert(expected@ =~= key_type_text());
    if v.len() != expected.len() {
        assert(v@.len() != expected@.len());
        return false;
    }
    let mut i: usize = 0;
    while i < v.len()
        invariant
            v@ == strip_spaces(t@),
            expected@ == key_type_text(),
            v.len() == expected.len(),
            i <= v.len(),
            forall|j: int| 0 <= j < i ==> v@[j] == expected@[j],
        decreases v.len() - i,
    {
        if v[i] != expected[i] {
            assert(v@[i as int] != expected@[i as int]);
            return false;
        }
        i = i + 1;
    }
    assert(v@ =~= expected@);
    true
}

/// The position of the first name that repeats an earlier one, if any.
fn find_repeat(fields: &Vec<FieldDesc>) -> (r: Option<usize>)
    ensures
        match r {
            Some(j) => first_repeat(names_of(fields_view(fields@)), j as int),
            None => all_distinct(names_of(fields_view(fields@))),
        },
{
    let ghost names = names_of(fields_view(fields@));
    let mut j: usize = 0;
    while j < fields.len()
        invariant
            names == names_of(fields_view(fields@)),
            names.len() == fields.len(),
            j <= fields.len(),
            forall|k: int| 0 <= k < j ==> !repeats_earlier(names, k),
        decreases fields.len() - j,
    {
        let mut i: usize = 0;
        while i < j
            invariant
                names == names_of(fields_view(fields@)),
                names.len() == fields.len(),
                i <= j < fields.len(),
                forall|k: int| 0 <= k < j ==> !repeats_earlier(names, k),
                forall|m: int| 0 <= m < i ==> names[m] != names[j as int],
            decreases j - i,
        {
            if fields[i].name == fields[j].name {
                assert(names[i as int] == names[j as int]);
                assert(repeats_earlier(names, j as int));
                return Some(j);
            }
            i = i + 1;
        }
        j = j + 1;
    }
    assert forall|a: int, b: int| 0 <= a < b < names.len() implies names[a] != names[b] by {
        if names[a] == names[b] {
            assert(repeats_earlier(names, b));
        }
    }
    None
}

/// The position of the first field named `id`, if any.
fn find_key(fields: &Vec<FieldDesc>) -> (r: Option<usize>)
    ensures
        match r {
            Some(k) => k < fields.len() && fields@[k as int].name@ == key_name()
                && forall|m: int| 0 <= m < k ==> fields@[m].name@ != key_name(),
            None => forall|m: int| 0 <= m < fields.len() ==> fields@[m].name@ != key_name(),
        },
{
    let mut i: usize = 0;
    while i < fields.len()
        invariant
            i <= fields.len(),
            forall|m: int| 0 <= m < i ==> fields@[m].name@ != key_name(),
        decreases fields.len() - i,
    {
        if is_key_name(&fields[i].name) {
            return Some(i);
        }
        i = i + 1;
    }
    None
}

/// A copy of a field description.
fn copy_field(f: &FieldDesc) -> (r: FieldDesc)
    ensures
        field_view(r) == field_view(*f),
{
    FieldDesc { name: f.name.clone(), ty: f.ty.clone() }
}

/// Every field but the one at position `k`, in order.
fn columns_without(fields: &Vec<FieldDesc>, k: usize) -> (r: Vec<FieldDesc>)
    requires
        k < fields.len(),
    ensures
        fields_view(r@) == without(fields_view(fields@), k as int),
{
    let ghost all = fields_view(fields@);
    let mut r: Vec<FieldDesc> = Vec::new();
    let mut i: usize = 0;
    while i < fields.len()
        invariant
            all == fields_view(fields@),
            k < fields.len(),
            i <= fields.len(),
            i <= k ==> fields_view(r@) == all.take(i as int),
            i > k ==> fields_view(r@) == all.take(k as int) + all.subrange(k + 1, i as int),
        decreases fields.len() - i,
    {
        let ghost before = fields_view(r@);
        if i != k {
            let f = copy_field(&fields[i]);
            r.push(f);
            assert(fields_view(r@) =~= before.push(all[i as int]));
        }
        proof {
            let ri = fields_view(r@);
            if i < k {
                assert(ri =~= all.take(i + 1));
            } else if i == k {
                assert(ri =~= all.take(k as int) + all.subrange(k + 1, i + 1));
            } else {
                assert(all.subrange(k + 1, i + 1) =~= all.subrange(k + 1, i as int).push(all[i as int]));
                assert(ri =~= all.take(k as int) + all.subrange(k + 1, i + 1));
            }
        }
        i = i + 1;
    }
    assert(all.subrange(k + 1, fields.len() as int) =~= all.skip(k + 1));
    r
}

/// Validates a record-type description and derives its schema.
///
/// The checks run in this order: the type must have named fields, field
/// names must be distinct, a field must be named `id`, and that field must
/// be of type `Option<i64>`.
pub fn analyze(d: &RecordDesc) -> (r: Result<Schema, SchemaError>)
    ensures
        r is Ok <==> valid_desc(*d),
        r matches Err(e) ==> reports(*d, e),
        !d.named_fields ==> r == Err::<Schema, SchemaError>(SchemaError::NotNamedRecord),
        d.named_fields && !all_distinct(names_of(fields_view(d.fields@))) ==> exists|j: int|
            #[trigger] first_repeat(names_of(fields_view(d.fields@)), j) && is_duplicate_error(
                r,
                d.fields@[j].name@,
            ),
        d.named_fields && all_distinct(names_of(fields_view(d.fields@))) && (forall|m: int|
            0 <= m < d.fields.len() ==> d.fields@[m].name@ != key_name()) ==> r == Err::<
            Schema,
            SchemaError,
        >(SchemaError::MissingKey),
        forall|k: int|
            #![trigger d.fields@[k]]
            d.named_fields && all_distinct(names_of(fields_view(d.fields@))) && 0 <= k
                < d.fields.len() && d.fields@[k].name@ == key_name() ==> {
                &&& !is_key_type(d.fields@[k].ty@) ==> (r matches Err(
                    SchemaError::MistypedKey(t),
                ) && t@ == d.fields@[k].ty@)
                &&& is_key_type(d.fields@[k].ty@) ==> (r matches Ok(s) && s.model() == schema_of(
                    *d,
                    k,
                ) && s.wf())
            },
{
    if !d.named_fields {
        return Err(SchemaError::NotNamedRecord);
    }
    let ghost names = names_of(fields_view(d.fields@));
    match find_repeat(&d.fields) {
        Some(j) => {
            return Err(SchemaError::DuplicateField(d.fields[j].name.clone()));
        },
        None => {},
    }
    let k = match find_key(&d.fields) {
        Some(k) => k,
        None => {
            return Err(SchemaError::MissingKey);
        },
    };
    proof {
        assert forall|m: int| 0 <= m < d.fields.len() && d.fields@[m].name@ == key_name() implies m
            == k by {
            assert(names[m] == d.fields@[m].name@);
            assert(names[k as int] == d.fields@[k as int].name@);
        }
    }
    if !check_key_type(&d.fields[k].ty) {
        return Err(SchemaError::MistypedKey(d.fields[k].ty.clone()));
    }
    let columns = columns_without(&d.fields, k);
    let s = Schema {
        table_name: d.name.clone(),
        key_position: k,
        key_type: d.fields[k].ty.clone(),
        columns,
    };
    proof {
        let all = fields_view(d.fields@);
        let cols = fields_view(columns@);
        assert(cols == without(all, k as int));
        assert forall|i: int| 0 <= i < cols.len() implies cols[i] == all[if i < k { i } else { i + 1 }] by {
            if i < k {
                assert(cols[i] == all.take(k as int)[i]);
            } else {
                assert(cols[i] == all.skip(k + 1)[i - k]);
            }
        }
        assert forall|i: int, j: int| 0 <= i < j < s.column_names().len() implies s.column_names()[i]
            != s.column_names()[j] by {
            let ii = if i < k { i } else { i + 1 };
            let jj = if j < k { j } else { j + 1 };
            assert(s.column_names()[i] == cols[i].0);
            assert(s.column_names()[j] == cols[j].0);
            assert(names[ii] == all[ii].0);
            assert(names[jj] == all[jj].0);
        }
        assert forall|i: int| 0 <= i < s.columns@.len() implies s.columns@[i].name@ != key_name() by {
            let ii = if i < k { i } else { i + 1 };
            assert(cols[i] == field_view(s.columns@[i]));
            assert(all[ii] == field_view(d.fields@[ii]));
        }
    }
    Ok(s)
}

} // verus!
