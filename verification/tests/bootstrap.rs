use sqljson::db::{execute_query, init_db, Database, DbSlot, InitError};

fn ready(slot: &DbSlot) -> &Database {
    match slot {
        DbSlot::Ready(db) => db,
        DbSlot::Uninitialized => panic!("slot not initialized"),
    }
}

fn run(db: &Database, sql: &str) -> serde_json::Value {
    let text = execute_query(db, sql.to_string()).expect("query failed");
    serde_json::from_str(&text).expect("output is not valid JSON")
}

#[test]
fn init_succeeds_and_counts_match() {
    let mut slot = DbSlot::Uninitialized;
    init_db(&mut slot).expect("bootstrap failed");
    let db = ready(&slot);
    let v = run(db, "SELECT COUNT(*) AS c FROM Persons");
    assert_eq!(v["data"][0]["c"], serde_json::Value::from(100));
    let v = run(db, "SELECT COUNT(*) AS c FROM Courses");
    assert_eq!(v["data"][0]["c"], serde_json::Value::from(200));
    let v = run(db, "SELECT COUNT(*) AS c FROM Programmings");
    assert_eq!(v["data"][0]["c"], serde_json::Value::from(300));
}

#[test]
fn second_init_fails_distinctly_and_keeps_handle() {
    let mut slot = DbSlot::Uninitialized;
    init_db(&mut slot).expect("bootstrap failed");
    let again = init_db(&mut slot);
    assert!(matches!(again, Err(InitError::AlreadyInitialized)));
    match again {
        Err(e) => assert_eq!(e.text(), "DB already initialized"),
        Ok(()) => unreachable!(),
    }
    // The first handle stays fully intact and queryable.
    let db = ready(&slot);
    let v = run(db, "SELECT COUNT(*) AS c FROM Persons");
    assert_eq!(v["data"][0]["c"], serde_json::Value::from(100));
}

#[test]
fn bootstrap_is_deterministic_across_instances() {
    let mut first = DbSlot::Uninitialized;
    let mut second = DbSlot::Uninitialized;
    init_db(&mut first).expect("bootstrap failed");
    init_db(&mut second).expect("bootstrap failed");
    for dump in [
        "SELECT * FROM Persons ORDER BY Id",
        "SELECT * FROM Courses ORDER BY Id",
        "SELECT * FROM Programmings ORDER BY Id",
    ] {
        let a = execute_query(ready(&first), dump.to_string()).expect("query failed");
        let b = execute_query(ready(&second), dump.to_string()).expect("query failed");
        assert_eq!(a, b);
    }
}

#[test]
fn no_orphan_foreign_keys() {
    let mut slot = DbSlot::Uninitialized;
    init_db(&mut slot).expect("bootstrap failed");
    let db = ready(&slot);
    let v = run(
        db,
        "SELECT COUNT(*) AS orphans FROM Courses LEFT JOIN Persons \
         ON Courses.PersonId = Persons.Id WHERE Persons.Id IS NULL",
    );
    assert_eq!(v["data"][0]["orphans"], serde_json::Value::from(0));
    let v = run(
        db,
        "SELECT COUNT(*) AS orphans FROM Programmings LEFT JOIN Persons \
         ON Programmings.PersonId = Persons.Id WHERE Persons.Id IS NULL",
    );
    assert_eq!(v["data"][0]["orphans"], serde_json::Value::from(0));
}

#[test]
fn first_name_comes_from_the_fixed_pool() {
    let mut slot = DbSlot::Uninitialized;
    init_db(&mut slot).expect("bootstrap failed");
    let db = ready(&slot);
    let v = run(db, "SELECT Name FROM Persons LIMIT 1");
    assert_eq!(v["columns"], serde_json::from_str::<serde_json::Value>("[\"Name\"]").unwrap());
    let name = v["data"][0]["Name"].as_str().expect("name is text");
    let pool = ["Ali", "Mohammad", "Hassan", "Mahdi", "Sajjad", "Sadegh"];
    assert!(pool.contains(&name), "{name} is not in the pool");
}

#[test]
fn missing_table_reports_engine_error() {
    let mut slot = DbSlot::Uninitialized;
    init_db(&mut slot).expect("bootstrap failed");
    let db = ready(&slot);
    let err = execute_query(db, "SELECT * FROM NoSuchTable".to_string()).unwrap_err();
    assert!(err.contains("no such table"), "unexpected error text: {err}");
}
