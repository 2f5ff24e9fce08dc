use sqljson::dataset::{generate_dataset, CourseRow, PersonRow, ProgrammingRow};
use sqljson::json::{render_result, Cell};
use sqljson::numtext::{i64_text, u64_text};
use sqljson::rng::SeedRng;
use sqljson::script::{
    course_insert_sql, person_insert_sql, programming_insert_sql, schema_sql, score_text,
};

#[test]
fn u64_text_exact_values() {
    assert_eq!(u64_text(0), "0");
    assert_eq!(u64_text(7), "7");
    assert_eq!(u64_text(10), "10");
    assert_eq!(u64_text(42), "42");
    assert_eq!(u64_text(18446744073709551615), "18446744073709551615");
}

#[test]
fn i64_text_exact_values() {
    assert_eq!(i64_text(0), "0");
    assert_eq!(i64_text(-1), "-1");
    assert_eq!(i64_text(100), "100");
    assert_eq!(i64_text(-9223372036854775808), "-9223372036854775808");
    assert_eq!(i64_text(9223372036854775807), "9223372036854775807");
}

#[test]
fn score_text_exact_values() {
    assert_eq!(score_text(20), "10.0");
    assert_eq!(score_text(29), "14.5");
    assert_eq!(score_text(40), "20.0");
}

#[test]
fn render_result_exact_output() {
    let cols = vec!["b".to_string(), "a".to_string()];
    let rows = vec![
        vec![Cell::Int(1), Cell::Null],
        vec![Cell::Text("x\"y".to_string()), Cell::Blob],
    ];
    let text = render_result(&cols, &rows);
    assert_eq!(
        text,
        "{\"columns\":[\"b\",\"a\"],\"data\":[{\"b\":1,\"a\":null},{\"b\":\"x\\\"y\",\"a\":\"NOT SUPPORT\"}]}"
    );
}

#[test]
fn render_result_empty() {
    let cols: Vec<String> = vec![];
    let rows: Vec<Vec<Cell>> = vec![];
    assert_eq!(render_result(&cols, &rows), "{\"columns\":[],\"data\":[]}");
}

#[test]
fn render_result_escapes_controls_and_backslashes() {
    let cols = vec!["s".to_string()];
    let rows = vec![vec![Cell::Text("a\\b\n\u{1f}".to_string())]];
    let text = render_result(&cols, &rows);
    assert_eq!(
        text,
        "{\"columns\":[\"s\"],\"data\":[{\"s\":\"a\\\\b\\u000a\\u001f\"}]}"
    );
    let v: serde_json::Value = serde_json::from_str(&text).unwrap();
    assert_eq!(v["data"][0]["s"], serde_json::Value::from("a\\b\n\u{1f}"));
}

#[test]
fn render_result_real_cells_carry_their_text() {
    let cols = vec!["r".to_string()];
    let rows = vec![vec![Cell::Real("2.5".to_string())]];
    assert_eq!(
        render_result(&cols, &rows),
        "{\"columns\":[\"r\"],\"data\":[{\"r\":2.5}]}"
    );
}

#[test]
fn person_insert_sql_exact() {
    let row = PersonRow { id: 1, name_idx: 0, age: 25, grade: 2, score_halves: 29 };
    assert_eq!(
        person_insert_sql(&row),
        "INSERT INTO Persons (Id, Name, Age, Grade, [Score Quran]) VALUES (1, 'Ali', 25, 2, 14.5)"
    );
}

#[test]
fn course_insert_sql_exact() {
    let row = CourseRow { id: 200, person_id: 1, name_idx: 1, score_halves: 40 };
    assert_eq!(
        course_insert_sql(&row),
        "INSERT INTO Courses (Id, PersonId, Name, Score) VALUES (200, 1, 'Math', 20.0)"
    );
}

#[test]
fn programming_insert_sql_exact() {
    let row = ProgrammingRow { id: 3, person_id: 4, lang_idx: 2, grade_idx: 2 };
    assert_eq!(
        programming_insert_sql(&row),
        "INSERT INTO Programmings (Id, PersonId, Language, Grade) VALUES (3, 4, 'C#', 'Low')"
    );
}

#[test]
fn schema_creates_all_three_tables() {
    let sql = schema_sql();
    assert!(sql.starts_with("PRAGMA foreign_keys = ON;"));
    assert!(sql.contains("CREATE TABLE Persons"));
    assert!(sql.contains("CREATE TABLE Courses"));
    assert!(sql.contains("CREATE TABLE Programmings"));
}

#[test]
fn generated_dataset_is_deterministic_and_in_range() {
    let a = generate_dataset(42);
    let b = generate_dataset(42);
    assert_eq!(a.persons.len(), 100);
    assert_eq!(a.courses.len(), 200);
    assert_eq!(a.programmings.len(), 300);
    assert_eq!(a.persons, b.persons);
    assert_eq!(a.courses, b.courses);
    assert_eq!(a.programmings, b.programmings);
    for (i, p) in a.persons.iter().enumerate() {
        assert_eq!(p.id as usize, i + 1);
        assert!(p.name_idx < 6);
        assert!((18..38).contains(&p.age));
        assert!((1..4).contains(&p.grade));
        assert!((20..41).contains(&p.score_halves));
    }
    for (i, c) in a.courses.iter().enumerate() {
        assert_eq!(c.id as usize, i + 1);
        assert_eq!(c.person_id, (c.id % 100) + 1);
        assert!(c.name_idx < 5);
        assert!((20..41).contains(&c.score_halves));
    }
    for (i, p) in a.programmings.iter().enumerate() {
        assert_eq!(p.id as usize, i + 1);
        assert_eq!(p.person_id, (p.id % 100) + 1);
        assert!(p.lang_idx < 5);
        assert!(p.grade_idx < 3);
    }
}

#[test]
fn seeded_rng_is_deterministic_and_bounded() {
    let mut a = SeedRng::new(7);
    let mut b = SeedRng::new(7);
    let bounds = [6u32, 20, 3, 21, 5, 21, 5, 3, 1000];
    for &bound in bounds.iter() {
        let x = a.draw(bound);
        let y = b.draw(bound);
        assert_eq!(x, y);
        assert!(x < bound);
    }
    // A different seed is allowed to differ somewhere over many draws.
    let mut c = SeedRng::new(8);
    let mut d = SeedRng::new(7);
    let mut all_equal = true;
    for _ in 0..64 {
        if c.draw(1000) != d.draw(1000) {
            all_equal = false;
        }
    }
    assert!(!all_equal);
}
