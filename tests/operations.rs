use squail::schema::{FieldDesc, RecordDesc, SchemaError};
use squail::row::{DecodeError, FetchedRow};
use squail::table::{
    apply_fetched, derive_table, finish_delete, found_record, keep_found, update_outcome, upsert_step,
    DbError, Table, UpsertStep,
};
use squail::value::{Record, SqlValue};

fn field(name: &str, ty: &str) -> FieldDesc {
    FieldDesc { name: name.to_string(), ty: ty.to_string() }
}

fn person_table() -> Table {
    let d = RecordDesc {
        name: "Person".to_string(),
        named_fields: true,
        fields: vec![field("id", "Option<i64>"), field("name", "String"), field("age", "i64")],
    };
    derive_table(&d).unwrap()
}

fn person(name: &str, age: i64) -> Record {
    Record::new(vec![SqlValue::Text(name.to_string()), SqlValue::Integer(age)])
}

fn setup() -> (rusqlite::Connection, Table) {
    let conn = rusqlite::Connection::open_in_memory().unwrap();
    let t = person_table();
    t.create_table(&conn).unwrap();
    (conn, t)
}

fn row_count(conn: &rusqlite::Connection) -> i64 {
    conn.query_row("SELECT COUNT(*) FROM Person", [], |r| r.get(0)).unwrap()
}

#[test]
fn derive_table_refuses_invalid_descriptions() {
    let d = RecordDesc { name: "X".to_string(), named_fields: true, fields: vec![field("data", "i64")] };
    assert!(matches!(derive_table(&d), Err(SchemaError::MissingKey)));
}

#[test]
fn create_table_is_idempotent() {
    let (conn, t) = setup();
    t.create_table(&conn).unwrap();
    t.create_table(&conn).unwrap();
    assert_eq!(row_count(&conn), 0);
}

#[test]
fn insert_then_get_returns_the_record() {
    let (conn, t) = setup();
    let mut r = person("curly", 30);
    let k = t.insert(&conn, &mut r).unwrap();
    assert_eq!(r.id, Some(k));
    assert_eq!(t.get_by_id(&conn, k).unwrap(), Some(r.clone()));
}

#[test]
fn insert_does_not_check_the_key_and_makes_duplicates() {
    let (conn, t) = setup();
    let mut a = person("shemp", 50);
    let mut b = person("shemp", 50);
    let ka = t.insert(&conn, &mut a).unwrap();
    let kb = t.insert(&conn, &mut b).unwrap();
    assert_ne!(ka, kb);
    assert_eq!(row_count(&conn), 2);
}

#[test]
fn insert_with_a_taken_key_fails_and_leaves_the_record() {
    let (conn, t) = setup();
    let mut a = person("a", 1);
    let k = t.insert(&conn, &mut a).unwrap();
    let mut b = Record { id: Some(k), values: vec![SqlValue::Text("b".to_string()), SqlValue::Integer(2)] };
    let before = b.clone();
    assert!(matches!(t.insert(&conn, &mut b), Err(DbError::Engine(_))));
    assert_eq!(b, before);
}

#[test]
fn delete_then_get_reports_not_found() {
    let (conn, t) = setup();
    let mut r = person("larry", 24);
    let k = t.insert(&conn, &mut r).unwrap();
    assert_eq!(t.delete(&conn, &mut r).unwrap(), true);
    assert_eq!(r.id, None);
    assert_eq!(t.get_by_id(&conn, k).unwrap(), None);
}

#[test]
fn delete_without_key_does_nothing() {
    let (conn, t) = setup();
    let mut other = person("moe", 40);
    t.insert(&conn, &mut other).unwrap();
    let mut r = person("larry", 24);
    assert_eq!(t.delete(&conn, &mut r).unwrap(), false);
    assert_eq!(r, person("larry", 24));
    assert_eq!(row_count(&conn), 1);
}

#[test]
fn delete_of_a_gone_row_reports_false_and_clears_the_key() {
    let (conn, t) = setup();
    let mut r = person("larry", 24);
    let k = t.insert(&conn, &mut r).unwrap();
    t.delete_by_id(&conn, k).unwrap();
    assert_eq!(t.delete(&conn, &mut r).unwrap(), false);
    assert_eq!(r.id, None);
}

#[test]
fn delete_by_id_of_a_missing_key_is_no_error() {
    let (conn, t) = setup();
    t.delete_by_id(&conn, 12345).unwrap();
}

#[test]
fn update_without_key_fails_and_leaves_storage() {
    let (conn, t) = setup();
    let mut stored = person("moe", 40);
    let k = t.insert(&conn, &mut stored).unwrap();
    let r = person("moe", 41);
    assert!(matches!(t.update(&conn, &r), Err(DbError::MissingKey)));
    assert_eq!(t.get_by_id(&conn, k).unwrap(), Some(stored));
    assert_eq!(row_count(&conn), 1);
}

#[test]
fn update_of_a_missing_row_reports_false() {
    let (conn, t) = setup();
    let r = Record { id: Some(99), values: vec![SqlValue::Text("x".to_string()), SqlValue::Integer(1)] };
    assert_eq!(t.update(&conn, &r).unwrap(), false);
    assert_eq!(row_count(&conn), 0);
}

#[test]
fn upsert_without_key_inserts() {
    let (conn1, t) = setup();
    let conn2 = rusqlite::Connection::open_in_memory().unwrap();
    t.create_table(&conn2).unwrap();
    let mut a = person("a", 1);
    let mut b = person("a", 1);
    let ka = t.insert(&conn1, &mut a).unwrap();
    let kb = t.upsert(&conn2, &mut b).unwrap();
    assert_eq!(ka, kb);
    assert_eq!(a, b);
    assert_eq!(t.get_by_id(&conn1, ka).unwrap(), t.get_by_id(&conn2, kb).unwrap());
}

#[test]
fn upsert_with_existing_row_updates_in_place() {
    let (conn, t) = setup();
    let mut r = person("a", 1);
    let k = t.insert(&conn, &mut r).unwrap();
    r.values[1] = SqlValue::Integer(2);
    assert_eq!(t.upsert(&conn, &mut r).unwrap(), k);
    assert_eq!(r.id, Some(k));
    assert_eq!(t.get_by_id(&conn, k).unwrap(), Some(r));
    assert_eq!(row_count(&conn), 1);
}

#[test]
fn upsert_with_stale_key_inserts_under_a_new_key() {
    let (conn, t) = setup();
    let mut r = person("a", 1);
    let stale = t.insert(&conn, &mut r).unwrap();
    t.delete_by_id(&conn, stale).unwrap();
    let k = t.upsert(&conn, &mut r).unwrap();
    assert_ne!(k, stale);
    assert_eq!(r.id, Some(k));
    assert_eq!(t.get_by_id(&conn, k).unwrap(), Some(r));
    assert_eq!(t.get_by_id(&conn, stale).unwrap(), None);
}

#[test]
fn sync_reads_out_of_band_changes() {
    let (conn, t) = setup();
    let mut r = person("a", 1);
    let k = t.insert(&conn, &mut r).unwrap();
    conn.execute("UPDATE Person SET name = 'b', age = 9 WHERE id = ?1", [k]).unwrap();
    assert_eq!(t.sync(&conn, &mut r).unwrap(), true);
    assert_eq!(r, Record { id: Some(k), values: vec![SqlValue::Text("b".to_string()), SqlValue::Integer(9)] });
}

#[test]
fn sync_of_a_deleted_row_leaves_the_record() {
    let (conn, t) = setup();
    let mut r = person("a", 1);
    let k = t.insert(&conn, &mut r).unwrap();
    conn.execute("DELETE FROM Person WHERE id = ?1", [k]).unwrap();
    let before = r.clone();
    assert_eq!(t.sync(&conn, &mut r).unwrap(), false);
    assert_eq!(r, before);
}

#[test]
fn sync_without_key_reports_false() {
    let (conn, t) = setup();
    let mut r = person("a", 1);
    assert_eq!(t.sync(&conn, &mut r).unwrap(), false);
    assert_eq!(r, person("a", 1));
}

#[test]
fn apply_fetched_overwrites_or_keeps() {
    let mut r = person("a", 1);
    let fresh = Record { id: Some(3), values: vec![SqlValue::Null, SqlValue::Integer(5)] };
    assert!(apply_fetched(&mut r, Some(fresh.clone())));
    assert_eq!(r, fresh);
    assert!(!apply_fetched(&mut r, None));
    assert_eq!(r, fresh);
}

#[test]
fn get_by_id_of_a_missing_key_is_none() {
    let (conn, t) = setup();
    assert_eq!(t.get_by_id(&conn, 1).unwrap(), None);
}

#[test]
fn get_by_id_refuses_floating_point_values() {
    let (conn, t) = setup();
    conn.execute("INSERT INTO Person (id, name, age) VALUES (5, 'x', 1.5)", []).unwrap();
    assert!(matches!(t.get_by_id(&conn, 5), Err(DbError::UnsupportedValue)));
}

#[test]
fn values_of_every_kind_round_trip() {
    let (conn, t) = setup();
    let mut r = Record::new(vec![SqlValue::Blob(vec![0, 255, 7]), SqlValue::Null]);
    let k = t.insert(&conn, &mut r).unwrap();
    let back = t.get_by_id(&conn, k).unwrap().unwrap();
    assert_eq!(back.values, vec![SqlValue::Blob(vec![0, 255, 7]), SqlValue::Null]);
    let kind: String = conn.query_row("SELECT typeof(name) FROM Person WHERE id = ?1", [k], |row| row.get(0)).unwrap();
    assert_eq!(kind, "blob");
}

#[test]
fn drop_then_create_gives_an_empty_table() {
    let (conn, t) = setup();
    let mut r = person("a", 1);
    t.insert(&conn, &mut r).unwrap();
    t.drop_table(&conn).unwrap();
    t.create_table(&conn).unwrap();
    assert_eq!(row_count(&conn), 0);
}

#[test]
fn drop_twice_fails_the_second_time() {
    let (conn, t) = setup();
    t.drop_table(&conn).unwrap();
    assert!(matches!(t.drop_table(&conn), Err(DbError::Engine(_))));
}

#[test]
fn larry_scenario() {
    let (conn, t) = setup();
    let mut r = person("larry", 24);
    assert_eq!(t.insert(&conn, &mut r).unwrap(), 1);
    assert_eq!(r.id, Some(1));
    r.values[1] = SqlValue::Integer(25);
    assert_eq!(t.update(&conn, &r).unwrap(), true);
    assert_eq!(
        t.get_by_id(&conn, 1).unwrap(),
        Some(Record { id: Some(1), values: vec![SqlValue::Text("larry".to_string()), SqlValue::Integer(25)] })
    );
    assert_eq!(t.delete(&conn, &mut r).unwrap(), true);
    assert_eq!(r.id, None);
    assert_eq!(t.get_by_id(&conn, 1).unwrap(), None);
}

#[test]
fn update_outcome_reports_a_changed_row() {
    assert!(!update_outcome(0));
    assert!(update_outcome(1));
    assert!(update_outcome(3));
}

#[test]
fn finish_delete_clears_the_key_and_reports_removal() {
    let mut r = Record { id: Some(4), values: vec![SqlValue::Integer(1)] };
    assert!(finish_delete(&mut r, 1));
    assert_eq!(r, Record { id: None, values: vec![SqlValue::Integer(1)] });
    let mut r = Record { id: Some(4), values: vec![] };
    assert!(!finish_delete(&mut r, 0));
    assert_eq!(r.id, None);
}

#[test]
fn upsert_step_keeps_the_key_or_inserts_fresh() {
    let r = Record { id: Some(7), values: vec![SqlValue::Integer(1)] };
    assert!(matches!(upsert_step(&r, 7, true), UpsertStep::Keep(7)));
    match upsert_step(&r, 7, false) {
        UpsertStep::InsertFresh(f) => assert_eq!(f, Record { id: None, values: vec![SqlValue::Integer(1)] }),
        UpsertStep::Keep(_) => panic!("expected a fresh insert"),
    }
}

#[test]
fn get_by_id_reports_a_column_the_table_lacks() {
    let conn = rusqlite::Connection::open_in_memory().unwrap();
    conn.execute("CREATE TABLE Person (id INTEGER PRIMARY KEY, name)", []).unwrap();
    conn.execute("INSERT INTO Person (id, name) VALUES (1, 'x')", []).unwrap();
    let t = person_table();
    match t.get_by_id(&conn, 1) {
        Err(DbError::Decode(DecodeError::MissingColumn(n))) => assert_eq!(n, "age"),
        other => panic!("unexpected result {:?}", other),
    }
}

#[test]
fn requests_give_statement_and_parameters() {
    let t = person_table();
    let r = Record { id: Some(4), values: vec![SqlValue::Text("a".to_string()), SqlValue::Integer(9)] };
    let q = t.insert_request(&r);
    assert_eq!(q.sql, "INSERT INTO Person (id, name, age) VALUES (?, ?, ?);");
    assert_eq!(q.params, vec![SqlValue::Integer(4), SqlValue::Text("a".to_string()), SqlValue::Integer(9)]);
    let q = t.update_request(&r).unwrap();
    assert_eq!(q.sql, "UPDATE OR IGNORE Person SET (name, age) = (?1, ?2) WHERE id = ?3;");
    assert_eq!(q.params, vec![SqlValue::Text("a".to_string()), SqlValue::Integer(9), SqlValue::Integer(4)]);
    let q = t.delete_request(&r).unwrap();
    assert_eq!(q.sql, "DELETE FROM Person WHERE id = ?;");
    assert_eq!(q.params, vec![SqlValue::Integer(4)]);
    let q = t.select_request(4);
    assert_eq!(q.sql, "SELECT * FROM Person WHERE id = ?;");
    assert_eq!(q.params, vec![SqlValue::Integer(4)]);
    assert_eq!(t.create_request().sql, "CREATE TABLE IF NOT EXISTS Person (id INTEGER PRIMARY KEY AUTOINCREMENT, name, age);");
    assert!(t.create_request().params.is_empty());
    assert_eq!(t.drop_request().sql, "DROP TABLE Person;");
    assert_eq!(t.delete_by_id_request(2).params, vec![SqlValue::Integer(2)]);
    let keyless = person("b", 1);
    assert!(t.update_request(&keyless).is_none());
    assert!(t.delete_request(&keyless).is_none());
    assert_eq!(t.insert_request(&keyless).params[0], SqlValue::Null);
}

#[test]
fn keep_found_pairs_names_with_positions() {
    let wanted = vec!["id".to_string(), "name".to_string(), "age".to_string()];
    let (names, positions) = keep_found(&wanted, &vec![Some(2), None, Some(0)]);
    assert_eq!(names, vec!["id".to_string(), "age".to_string()]);
    assert_eq!(positions, vec![2, 0]);
}

#[test]
fn found_record_decodes_or_reports_none() {
    let t = person_table();
    assert!(matches!(found_record(&t.schema, None), Ok(None)));
    let row = FetchedRow {
        names: vec!["age".to_string(), "id".to_string(), "name".to_string()],
        values: vec![SqlValue::Integer(3), SqlValue::Integer(8), SqlValue::Text("z".to_string())],
    };
    let got = found_record(&t.schema, Some(row)).unwrap();
    assert_eq!(got, Some(Record { id: Some(8), values: vec![SqlValue::Text("z".to_string()), SqlValue::Integer(3)] }));
    let bad = FetchedRow { names: vec!["id".to_string()], values: vec![SqlValue::Integer(8)] };
    match found_record(&t.schema, Some(bad)) {
        Err(DbError::Decode(DecodeError::MissingColumn(n))) => assert_eq!(n, "name"),
        other => panic!("unexpected result {:?}", other),
    }
}
