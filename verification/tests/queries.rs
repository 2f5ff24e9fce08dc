use sqljson::db::{execute_query, init_db, Database, DbSlot};

fn boot() -> DbSlot {
    let mut slot = DbSlot::Uninitialized;
    init_db(&mut slot).expect("bootstrap failed");
    slot
}

fn ready(slot: &DbSlot) -> &Database {
    match slot {
        DbSlot::Ready(db) => db,
        DbSlot::Uninitialized => panic!("slot not initialized"),
    }
}

fn run(db: &Database, sql: &str) -> String {
    execute_query(db, sql.to_string()).expect("query failed")
}

fn parse(text: &str) -> serde_json::Value {
    serde_json::from_str(text).expect("output is not valid JSON")
}

#[test]
fn column_order_is_the_reported_order() {
    let slot = boot();
    let db = ready(&slot);
    run(db, "CREATE TABLE t(a INTEGER, b INTEGER)");
    run(db, "INSERT INTO t VALUES (1, 2)");
    let text = run(db, "SELECT b, a FROM t");
    // The authoritative column list keeps the query's order, not the
    // table's storage order.
    assert!(
        text.starts_with("{\"columns\":[\"b\",\"a\"],\"data\":["),
        "unexpected output: {text}"
    );
    let v = parse(&text);
    assert_eq!(v["columns"], serde_json::from_str::<serde_json::Value>("[\"b\",\"a\"]").unwrap());
    assert_eq!(v["data"][0]["a"], serde_json::Value::from(1));
    assert_eq!(v["data"][0]["b"], serde_json::Value::from(2));
}

#[test]
fn row_order_follows_the_ordering_clause() {
    let slot = boot();
    let db = ready(&slot);
    let v = parse(&run(db, "SELECT Id FROM Persons ORDER BY Id DESC LIMIT 3"));
    let ids: Vec<i64> = v["data"]
        .as_array()
        .unwrap()
        .iter()
        .map(|row| row["Id"].as_i64().unwrap())
        .collect();
    assert_eq!(ids, vec![100, 99, 98]);
}

#[test]
fn row_order_without_ordering_clause_is_engine_order() {
    let slot = boot();
    let db = ready(&slot);
    let v = parse(&run(db, "SELECT Id FROM Persons LIMIT 5"));
    let ids: Vec<i64> = v["data"]
        .as_array()
        .unwrap()
        .iter()
        .map(|row| row["Id"].as_i64().unwrap())
        .collect();
    assert_eq!(ids, vec![1, 2, 3, 4, 5]);
}

#[test]
fn null_serializes_to_json_null() {
    let slot = boot();
    let db = ready(&slot);
    let text = run(db, "SELECT NULL AS x");
    assert!(text.contains("\"x\":null"), "unexpected output: {text}");
    let v = parse(&text);
    assert!(v["data"][0]["x"].is_null());
    assert!(v["data"][0].as_object().unwrap().contains_key("x"));
}

#[test]
fn blob_serializes_to_the_sentinel() {
    let slot = boot();
    let db = ready(&slot);
    let v = parse(&run(db, "SELECT X'01FF' AS b"));
    assert_eq!(v["data"][0]["b"], serde_json::Value::from("NOT SUPPORT"));
}

#[test]
fn failure_mid_iteration_returns_only_an_error() {
    let slot = boot();
    let db = ready(&slot);
    run(db, "CREATE TABLE nums(v INTEGER)");
    run(db, "INSERT INTO nums VALUES (1), (2), (3), (4)");
    // abs() of the smallest integer raises an engine error at this row.
    run(db, "INSERT INTO nums VALUES (-9223372036854775807 - 1)");
    run(db, "INSERT INTO nums VALUES (6), (7), (8), (9), (10)");
    let r = execute_query(db, "SELECT abs(v) AS a FROM nums".to_string());
    let err = r.unwrap_err();
    assert!(err.contains("overflow"), "unexpected error text: {err}");
}

#[test]
fn integers_reals_and_text_render_as_json_values() {
    let slot = boot();
    let db = ready(&slot);
    let text = run(db, "SELECT 42 AS i, 2.5 AS r, 'hi' AS t");
    assert!(text.contains("\"i\":42"), "unexpected output: {text}");
    assert!(text.contains("\"r\":2.5"), "unexpected output: {text}");
    assert!(text.contains("\"t\":\"hi\""), "unexpected output: {text}");
}

#[test]
fn text_with_quotes_and_controls_round_trips() {
    let slot = boot();
    let db = ready(&slot);
    let v = parse(&run(db, "SELECT 'he said \"hi\"' || char(10) AS s"));
    assert_eq!(v["data"][0]["s"], serde_json::Value::from("he said \"hi\"\n"));
}

#[test]
fn engine_computes_expressions() {
    let slot = boot();
    let db = ready(&slot);
    let v = parse(&run(db, "SELECT 1 + 1 AS s"));
    assert_eq!(v["data"][0]["s"], serde_json::Value::from(2));
}
