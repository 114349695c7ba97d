use squail::capability::{distinct_types, resolve_capabilities};
use squail::row::{decode_row, DecodeError, FetchedRow};
use squail::schema::{analyze, check_key_type, FieldDesc, RecordDesc, SchemaError};
use squail::sql::{
    create_statement, delete_statement, drop_statement, insert_statement, select_statement,
    synthesize, update_statement,
};
use squail::value::{Record, SqlValue};

fn field(name: &str, ty: &str) -> FieldDesc {
    FieldDesc { name: name.to_string(), ty: ty.to_string() }
}

fn desc(name: &str, fields: Vec<FieldDesc>) -> RecordDesc {
    RecordDesc { name: name.to_string(), named_fields: true, fields }
}

fn person() -> RecordDesc {
    desc(
        "Person",
        vec![
            field("id", "Option < i64 >"),
            field("name", "String"),
            field("age", "i64"),
            field("position", "Point"),
        ],
    )
}

#[test]
fn person_statements_have_the_fixed_shapes() {
    let s = analyze(&person()).unwrap();
    assert_eq!(
        create_statement(&s),
        "CREATE TABLE IF NOT EXISTS Person (id INTEGER PRIMARY KEY AUTOINCREMENT, name, age, position);"
    );
    assert_eq!(
        insert_statement(&s),
        "INSERT INTO Person (id, name, age, position) VALUES (?, ?, ?, ?);"
    );
    assert_eq!(
        update_statement(&s),
        "UPDATE OR IGNORE Person SET (name, age, position) = (?1, ?2, ?3) WHERE id = ?4;"
    );
    assert_eq!(select_statement(&s), "SELECT * FROM Person WHERE id = ?;");
    assert_eq!(delete_statement(&s), "DELETE FROM Person WHERE id = ?;");
    assert_eq!(drop_statement(&s), "DROP TABLE Person;");
}

#[test]
fn update_numbers_placeholders_past_nine() {
    let mut fields = vec![field("id", "Option<i64>")];
    let names = ["a", "b", "c", "d", "e", "f", "g", "h", "i", "j"];
    for n in names.iter() {
        fields.push(field(n, "i64"));
    }
    let s = analyze(&desc("Wide", fields)).unwrap();
    assert_eq!(
        update_statement(&s),
        "UPDATE OR IGNORE Wide SET (a, b, c, d, e, f, g, h, i, j) = \
         (?1, ?2, ?3, ?4, ?5, ?6, ?7, ?8, ?9, ?10) WHERE id = ?11;"
    );
}

#[test]
fn key_may_stand_anywhere_and_columns_keep_their_order() {
    let d = desc("Item", vec![field("label", "String"), field("id", "Option<i64>"), field("qty", "u32")]);
    let s = analyze(&d).unwrap();
    assert_eq!(s.table_name, "Item");
    assert_eq!(s.key_position, 1);
    let names: Vec<&str> = s.columns.iter().map(|c| c.name.as_str()).collect();
    assert_eq!(names, vec!["label", "qty"]);
    let st = synthesize(&s);
    assert_eq!(st.insert, "INSERT INTO Item (id, label, qty) VALUES (?, ?, ?);");
}

#[test]
fn key_only_record_has_no_columns() {
    let s = analyze(&desc("Bare", vec![field("id", "Option<i64>")])).unwrap();
    assert!(s.columns.is_empty());
    assert_eq!(create_statement(&s), "CREATE TABLE IF NOT EXISTS Bare (id INTEGER PRIMARY KEY AUTOINCREMENT);");
    assert_eq!(insert_statement(&s), "INSERT INTO Bare (id) VALUES (?);");
}

#[test]
fn tuple_struct_is_refused() {
    let mut d = person();
    d.named_fields = false;
    assert_eq!(analyze(&d).err(), Some(SchemaError::NotNamedRecord));
}

#[test]
fn missing_key_is_refused() {
    let d = desc("NoKey", vec![field("data", "i64")]);
    assert_eq!(analyze(&d).err(), Some(SchemaError::MissingKey));
}

#[test]
fn mistyped_key_is_refused_with_its_type() {
    let d = desc("Bad", vec![field("id", "Option < i32 >"), field("data", "i64")]);
    assert_eq!(analyze(&d).err(), Some(SchemaError::MistypedKey("Option < i32 >".to_string())));
    let d = desc("Bad", vec![field("id", "i64")]);
    assert_eq!(analyze(&d).err(), Some(SchemaError::MistypedKey("i64".to_string())));
}

#[test]
fn duplicate_field_is_refused_with_its_name() {
    let d = desc("Dup", vec![field("id", "Option<i64>"), field("a", "i64"), field("b", "i64"), field("a", "String")]);
    assert_eq!(analyze(&d).err(), Some(SchemaError::DuplicateField("a".to_string())));
}

#[test]
fn key_type_ignores_white_space_only() {
    assert!(check_key_type(&"Option<i64>".to_string()));
    assert!(check_key_type(&" Option < i64 > ".to_string()));
    assert!(!check_key_type(&"Option<u64>".to_string()));
    assert!(!check_key_type(&"std::option::Option<i64>".to_string()));
}

#[test]
fn capabilities_list_each_type_once() {
    let d = desc(
        "Pair",
        vec![field("id", "Option < i64 >"), field("a", "String"), field("b", "i64"), field("c", "String")],
    );
    let s = analyze(&d).unwrap();
    let caps = resolve_capabilities(&s);
    assert_eq!(caps.to_storage, vec!["Option < i64 >", "String", "i64"]);
    assert_eq!(caps.from_storage, vec!["Option < i64 >", "String", "i64"]);
    let types = vec!["x".to_string(), "y".to_string(), "x".to_string()];
    assert_eq!(distinct_types(&types), vec!["x".to_string(), "y".to_string()]);
}

fn row(cols: &[(&str, SqlValue)]) -> FetchedRow {
    FetchedRow {
        names: cols.iter().map(|c| c.0.to_string()).collect(),
        values: cols.iter().map(|c| c.1.clone()).collect(),
    }
}

#[test]
fn decode_looks_columns_up_by_name() {
    let s = analyze(&person()).unwrap();
    let r = row(&[
        ("position", SqlValue::Text("2 3".to_string())),
        ("age", SqlValue::Integer(40)),
        ("id", SqlValue::Integer(7)),
        ("name", SqlValue::Text("moe".to_string())),
    ]);
    let rec = decode_row(&s, &r).unwrap();
    assert_eq!(
        rec,
        Record {
            id: Some(7),
            values: vec![SqlValue::Text("moe".to_string()), SqlValue::Integer(40), SqlValue::Text("2 3".to_string())],
        }
    );
}

#[test]
fn decode_reports_missing_column_and_bad_key() {
    let s = analyze(&person()).unwrap();
    let no_age = row(&[
        ("id", SqlValue::Integer(1)),
        ("name", SqlValue::Text("moe".to_string())),
        ("position", SqlValue::Null),
    ]);
    assert_eq!(decode_row(&s, &no_age).err(), Some(DecodeError::MissingColumn("age".to_string())));
    let no_id = row(&[("name", SqlValue::Null)]);
    assert_eq!(decode_row(&s, &no_id).err(), Some(DecodeError::MissingColumn("id".to_string())));
    let text_id = row(&[
        ("id", SqlValue::Text("1".to_string())),
        ("name", SqlValue::Null),
        ("age", SqlValue::Null),
        ("position", SqlValue::Null),
    ]);
    assert_eq!(decode_row(&s, &text_id).err(), Some(DecodeError::InvalidKey));
    let null_id = row(&[
        ("id", SqlValue::Null),
        ("name", SqlValue::Null),
        ("age", SqlValue::Blob(vec![1, 2])),
        ("position", SqlValue::Null),
    ]);
    let rec = decode_row(&s, &null_id).unwrap();
    assert_eq!(rec.id, None);
    assert_eq!(rec.values[1], SqlValue::Blob(vec![1, 2]));
}
