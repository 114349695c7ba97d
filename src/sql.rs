use vstd::prelude::*;
use crate::schema::{FieldDesc, Schema, SchemaModel, names_of, fields_view};

verus! {

/// The decimal digit character for `d < 10`.
pub open spec fn digit_char(d: nat) -> char {
    if d == 0 { '0' }
    else if d == 1 { '1' }
    else if d == 2 { '2' }
    else if d == 3 { '3' }
    else if d == 4 { '4' }
    else if d == 5 { '5' }
    else if d == 6 { '6' }
    else if d == 7 { '7' }
    else if d == 8 { '8' }
    else { '9' }
}

/// The decimal rendering of `n`, without leading zeros.
pub open spec fn decimal(n: nat) -> Seq<char>
    decreases n,
{
    if n < 10 {
        seq![digit_char(n)]
    } else {
        decimal(n / 10).push(digit_char(n % 10))
    }
}

/// `pre` followed by each item, for every item in turn.
pub open spec fn prefixed(items: Seq<Seq<char>>, pre: Seq<char>) -> Seq<char>
    decreases items.len(),
{
    if items.len() == 0 {
        Seq::empty()
    } else {
        prefixed(items.drop_last(), pre) + pre + items.last()
    }
}

/// The items with `sep` between each two.
pub open spec fn join(items: Seq<Seq<char>>, sep: Seq<char>) -> Seq<char>
    decreases items.len(),
{
    if items.len() == 0 {
        Seq::empty()
    } else if items.len() == 1 {
        items[0]
    } else {
        join(items.drop_last(), sep) + sep + items.last()
    }
}

/// `p` written `n` times.
pub open spec fn repeated(p: Seq<char>, n: nat) -> Seq<char>
    decreases n,
{
    if n == 0 {
        Seq::empty()
    } else {
        repeated(p, (n - 1) as nat) + p
    }
}

/// The numbered placeholders `?1, ?2, ..., ?n`.
pub open spec fn numbered(n: nat) -> Seq<char>
    decreases n,
{
    if n == 0 {
        Seq::empty()
    } else if n == 1 {
        "?"@ + decimal(1)
    } else {
        numbered((n - 1) as nat) + ", ?"@ + decimal(n)
    }
}

/// `CREATE TABLE IF NOT EXISTS T (id INTEGER PRIMARY KEY AUTOINCREMENT, c1, ..., cn);`
pub open spec fn create_sql(s: SchemaModel) -> Seq<char> {
    "CREATE TABLE IF NOT EXISTS "@ + s.table_name + " (id INTEGER PRIMARY KEY AUTOINCREMENT"@
        + prefixed(names_of(s.columns), ", "@) + ");"@
}

/// `INSERT INTO T (id, c1, ..., cn) VALUES (?, ?, ..., ?);`
pub open spec fn insert_sql(s: SchemaModel) -> Seq<char> {
    "INSERT INTO "@ + s.table_name + " (id"@ + prefixed(names_of(s.columns), ", "@)
        + ") VALUES (?"@ + repeated(", ?"@, s.columns.len()) + ");"@
}

/// `UPDATE OR IGNORE T SET (c1, ..., cn) = (?1, ..., ?n) WHERE id = ?{n+1};`
pub open spec fn update_sql(s: SchemaModel) -> Seq<char> {
    "UPDATE OR IGNORE "@ + s.table_name + " SET ("@ + join(names_of(s.columns), ", "@)
        + ") = ("@ + numbered(s.columns.len()) + ") WHERE id = ?"@ + decimal(
        s.columns.len() + 1,
    ) + ";"@
}

/// `SELECT * FROM T WHERE id = ?;`
pub open spec fn select_sql(s: SchemaModel) -> Seq<char> {
    "SELECT * FROM "@ + s.table_name + " WHERE id = ?;"@
}

/// `DELETE FROM T WHERE id = ?;`
pub open spec fn delete_sql(s: SchemaModel) -> Seq<char> {
    "DELETE FROM "@ + s.table_name + " WHERE id = ?;"@
}

/// `DROP TABLE T;`
pub open spec fn drop_sql(s: SchemaModel) -> Seq<char> {
    "DROP TABLE "@ + s.table_name + ";"@
}

/// The statement texts of one record type, rendered once.
pub struct Statements {
    pub create: String,
    pub insert: String,
    pub update: String,
    pub select_by_key: String,
    pub delete_by_key: String,
    pub drop: String,
}

impl Statements {
    /// The statements are those that `s` determines.
    pub open spec fn renders(&self, s: SchemaModel) -> bool {
        &&& self.create@ == create_sql(s)
        &&& self.insert@ == insert_sql(s)
        &&& self.update@ == update_sql(s)
        &&& self.select_by_key@ == select_sql(s)
        &&& self.delete_by_key@ == delete_sql(s)
        &&& self.drop@ == drop_sql(s)
    }
}

fn digit_text(d: usize) -> (r: &'static str)
    requires
        d < 10,
    ensures
        r@ == seq![digit_char(d as nat)],
{
    proof {
        reveal_strlit("0");
        reveal_strlit("1");
        reveal_strlit("2");
        reveal_strlit("3");
        reveal_strlit("4");
        reveal_strlit("5");
        reveal_strlit("6");
        reveal_strlit("7");
        reveal_strlit("8");
        reveal_strlit("9");
    }
    let r = if d == 0 { "0" }
    else if d == 1 { "1" }
    else if d == 2 { "2" }
    else if d == 3 { "3" }
    else if d == 4 { "4" }
    else if d == 5 { "5" }
    else if d == 6 { "6" }
    else if d == 7 { "7" }
    else if d == 8 { "8" }
    else { "9" };
    assert(r@ =~= seq![digit_char(d as nat)]);
    r
}

/// Appends the decimal rendering of `n`.
pub fn append_decimal(s: &mut String, n: usize)
    ensures
        final(s)@ == old(s)@ + decimal(n as nat),
    decreases n,
{
    if n >= 10 {
        append_decimal(s, n / 10);
    }
    s.append(digit_text(n % 10));
    assert(final(s)@ =~= old(s)@ + decimal(n as nat));
}

/// Appends `pre` and the name, for each field in turn.
fn append_prefixed(s: &mut String, fields: &Vec<FieldDesc>, pre: &str)
    ensures
        final(s)@ == old(s)@ + prefixed(names_of(fields_view(fields@)), pre@),
{
    let ghost names = names_of(fields_view(fields@));
    let mut i: usize = 0;
    while i < fields.len()
        invariant
            names == names_of(fields_view(fields@)),
            i <= fields.len(),
            s@ == old(s)@ + prefixed(names.take(i as int), pre@),
        decreases fields.len() - i,
    {
        s.append(pre);
        s.append(fields[i].name.as_str());
        assert(names.take(i + 1).drop_last() =~= names.take(i as int));
        assert(s@ =~= old(s)@ + prefixed(names.take(i + 1), pre@));
        i = i + 1;
    }
    assert(names.take(fields.len() as int) =~= names);
}

/// Appends the names with `sep` between each two.
fn append_joined(s: &mut String, fields: &Vec<FieldDesc>, sep: &str)
    ensures
        final(s)@ == old(s)@ + join(names_of(fields_view(fields@)), sep@),
{
    let ghost names = names_of(fields_view(fields@));
    let mut i: usize = 0;
    while i < fields.len()
        invariant
            names == names_of(fields_view(fields@)),
            i <= fields.len(),
            s@ == old(s)@ + join(names.take(i as int), sep@),
        decreases fields.len() - i,
    {
        if i > 0 {
            s.append(sep);
        }
        s.append(fields[i].name.as_str());
        assert(names.take(i + 1).drop_last() =~= names.take(i as int));
        assert(s@ =~= old(s)@ + join(names.take(i + 1), sep@));
        i = i + 1;
    }
    assert(names.take(fields.len() as int) =~= names);
}

/// Appends `p` `n` times.
fn append_repeated(s: &mut String, p: &str, n: usize)
    ensures
        final(s)@ == old(s)@ + repeated(p@, n as nat),
{
    let mut i: usize = 0;
    while i < n
        invariant
            i <= n,
            s@ == old(s)@ + repeated(p@, i as nat),
        decreases n - i,
    {
        s.append(p);
        assert(s@ =~= old(s)@ + repeated(p@, (i + 1) as nat));
        i = i + 1;
    }
}

/// Appends the placeholders `?1, ..., ?n`.
fn append_numbered(s: &mut String, n: usize)
    ensures
        final(s)@ == old(s)@ + numbered(n as nat),
{
    let mut i: usize = 0;
    while i < n
        invariant
            i <= n,
            s@ == old(s)@ + numbered(i as nat),
        decreases n - i,
    {
        if i > 0 {
            s.append(", ?");
        } else {
            s.append("?");
        }
        append_decimal(s, i + 1);
        assert(s@ =~= old(s)@ + numbered((i + 1) as nat));
        i = i + 1;
    }
}

/// The statement that creates the table if it does not exist.
pub fn create_statement(schema: &Schema) -> (r: String)
    ensures
        r@ == create_sql(schema.model()),
{
    let mut s = String::new();
    s.append("CREATE TABLE IF NOT EXISTS ");
    s.append(schema.table_name.as_str());
    s.append(" (id INTEGER PRIMARY KEY AUTOINCREMENT");
    append_prefixed(&mut s, &schema.columns, ", ");
    s.append(");");
    assert(s@ =~= create_sql(schema.model()));
    s
}

/// The statement that inserts one row: the key, then every column.
pub fn insert_statement(schema: &Schema) -> (r: String)
    ensures
        r@ == insert_sql(schema.model()),
{
    let mut s = String::new();
    s.append("INSERT INTO ");
    s.append(schema.table_name.as_str());
    s.append(" (id");
    append_prefixed(&mut s, &schema.columns, ", ");
    s.append(") VALUES (?");
    append_repeated(&mut s, ", ?", schema.columns.len());
    s.append(");");
    assert(s@ =~= insert_sql(schema.model()));
    s
}

/// The statement that updates every column of the row with a given key.
pub fn update_statement(schema: &Schema) -> (r: String)
    requires
        schema.columns@.len() < usize::MAX,
    ensures
        r@ == update_sql(schema.model()),
{
    let n = schema.columns.len();
    let mut s = String::new();
    s.append("UPDATE OR IGNORE ");
    s.append(schema.table_name.as_str());
    s.append(" SET (");
    append_joined(&mut s, &schema.columns, ", ");
    s.append(") = (");
    append_numbered(&mut s, n);
    s.append(") WHERE id = ?");
    append_decimal(&mut s, n + 1);
    s.append(";");
    assert(s@ =~= update_sql(schema.model()));
    s
}

/// The statement that selects the row with a given key.
pub fn select_statement(schema: &Schema) -> (r: String)
    ensures
        r@ == select_sql(schema.model()),
{
    let mut s = String::new();
    s.append("SELECT * FROM ");
    s.append(schema.table_name.as_str());
    s.append(" WHERE id = ?;");
    assert(s@ =~= select_sql(schema.model()));
    s
}

/// The statement that deletes the row with a given key.
pub fn delete_statement(schema: &Schema) -> (r: String)
    ensures
        r@ == delete_sql(schema.model()),
{
    let mut s = String::new();
    s.append("DELETE FROM ");
    s.append(schema.table_name.as_str());
    s.append(" WHERE id = ?;");
    assert(s@ =~= delete_sql(schema.model()));
    s
}

/// The statement that drops the table.
pub fn drop_statement(schema: &Schema) -> (r: String)
    ensures
        r@ == drop_sql(schema.model()),
{
    let mut s = String::new();
    s.append("DROP TABLE ");
    s.append(schema.table_name.as_str());
    s.append(";");
    assert(s@ =~= drop_sql(schema.model()));
    s
}

/// Renders every statement of a schema.
pub fn synthesize(schema: &Schema) -> (r: Statements)
    requires
        schema.wf(),
    ensures
        r.renders(schema.model()),
{
    Statements {
        create: create_statement(schema),
        insert: insert_statement(schema),
        update: update_statement(schema),
        select_by_key: select_statement(schema),
        delete_by_key: delete_statement(schema),
        drop: drop_statement(schema),
    }
}

} // verus!
