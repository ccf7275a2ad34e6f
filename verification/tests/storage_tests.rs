use lores_app_node::errors::StoreError;
use lores_app_node::outbox::{after_delivery, after_insert, idempotency_key, persisted_result, AfterDelivery, AfterInsert};
use lores_app_node::projection::{hex_lower, is_internal_table, ProjectionDb, SchemaStep};

#[test]
fn idempotency_key_is_decimal_row_id() {
    assert_eq!(idempotency_key(0), "0");
    assert_eq!(idempotency_key(7), "7");
    assert_eq!(idempotency_key(42), "42");
    assert_eq!(idempotency_key(1000), "1000");
    assert_eq!(idempotency_key(-15), "-15");
    assert_eq!(idempotency_key(i64::MAX), i64::MAX.to_string());
    assert_eq!(idempotency_key(i64::MIN), i64::MIN.to_string());
}

#[test]
fn outbox_insert_decides_delivery() {
    match after_insert(Ok(31)) {
        AfterInsert::Deliver { id, key } => {
            assert_eq!(id, 31);
            assert_eq!(key, "31");
        }
        other => panic!("unexpected {other:?}"),
    }
    assert!(matches!(after_insert(Err("no such table".into())), AfterInsert::Fail(StoreError::Other(m)) if m == "no such table"));
}

#[test]
fn outbox_keeps_undelivered_rows() {
    assert_eq!(after_delivery(4, &Ok(())), AfterDelivery::DeleteLocal(4));
    assert_eq!(after_delivery(4, &Err(StoreError::Other("unavailable".into()))), AfterDelivery::KeepLocal(4));
}

#[test]
fn schema_hash_is_lowercase_sha256_hex() {
    assert_eq!(
        ProjectionDb::hash(""),
        "e3b0c44298fc1c149afbf4c8996fb92427ae41e4649b934ca495991b7852b855"
    );
    assert_eq!(
        ProjectionDb::hash("abc"),
        "ba7816bf8f01cfea414140de5dae2223b00361a396177a9cb410ff61f20015ad"
    );
}

#[test]
fn hex_lower_renders_two_digits_per_byte() {
    assert_eq!(hex_lower(&[0x00, 0x0f, 0xa0, 0xff]), "000fa0ff");
    assert_eq!(hex_lower(&[]), "");
}

#[test]
fn rebuild_only_when_stored_hash_differs() {
    let h = ProjectionDb::hash("CREATE TABLE websites (id TEXT);");
    assert!(!ProjectionDb::needs_rebuild(&Some(h.clone()), &h));
    assert!(ProjectionDb::needs_rebuild(&Some("old".to_string()), &h));
    assert!(ProjectionDb::needs_rebuild(&None, &h));
}

#[test]
fn drop_statements_quote_table_names() {
    assert_eq!(ProjectionDb::drop_table_statement("websites"), "DROP TABLE IF EXISTS \"websites\"");
    let stmts = ProjectionDb::drop_statements(&vec!["_schema".to_string(), "websites".to_string()]);
    assert_eq!(
        stmts,
        vec!["DROP TABLE IF EXISTS \"_schema\"".to_string(), "DROP TABLE IF EXISTS \"websites\"".to_string()]
    );
}

#[test]
fn schema_steps_record_the_hash() {
    let schema = "CREATE TABLE websites (id TEXT PRIMARY KEY);";
    let steps = ProjectionDb::schema_steps(schema);
    assert_eq!(steps.len(), 3);
    assert!(matches!(&steps[0], SchemaStep::Execute(s) if s == "CREATE TABLE _schema (hash TEXT NOT NULL);"));
    assert!(matches!(&steps[1], SchemaStep::RecordHash(h) if *h == ProjectionDb::hash(schema)));
    assert!(matches!(&steps[2], SchemaStep::Execute(s) if s == schema));
}

#[test]
fn drop_statements_skip_only_sqlite_tables() {
    let tables: Vec<String> = ["sqlite_sequence", "sqlites", "websites", "Sqlite_x", "sqlite", "sqlite_stat1"]
        .iter()
        .map(|t| t.to_string())
        .collect();
    assert_eq!(
        ProjectionDb::drop_statements(&tables),
        vec![
            "DROP TABLE IF EXISTS \"sqlites\"".to_string(),
            "DROP TABLE IF EXISTS \"websites\"".to_string(),
            "DROP TABLE IF EXISTS \"Sqlite_x\"".to_string(),
            "DROP TABLE IF EXISTS \"sqlite\"".to_string(),
        ]
    );
}

#[test]
fn internal_tables_start_with_sqlite_underscore() {
    assert!(is_internal_table("sqlite_sequence"));
    assert!(is_internal_table("sqlite_"));
    assert!(!is_internal_table("sqlites"));
    assert!(!is_internal_table("sqlite"));
    assert!(!is_internal_table("_schema"));
    assert!(!is_internal_table(""));
}

#[test]
fn outbox_publish_succeeds_once_persisted() {
    assert!(persisted_result(&AfterDelivery::DeleteLocal(3), &Some(Ok(()))).is_ok());
    assert!(persisted_result(&AfterDelivery::DeleteLocal(3), &Some(Err("locked".into()))).is_ok());
    assert!(persisted_result(&AfterDelivery::KeepLocal(3), &None).is_ok());
}

#[test]
fn in_memory_database_needs_replay() {
    assert!(ProjectionDb::in_memory_needs_replay());
}
