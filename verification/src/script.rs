//! The SQL text the bootstrapper feeds to the engine: the schema batch and
//! one INSERT statement per generated row, every byte pinned by a spec
//! function. Since `spec_script` is a function of the seed alone, two
//! bootstrap runs with the same seed execute the identical statement list.

use vstd::prelude::*;
use vstd::string::StringExecFns;
use crate::dataset::CourseRow;
use crate::dataset::Dataset;
use crate::dataset::PersonRow;
use crate::dataset::ProgrammingRow;
use crate::dataset::spec_courses;
use crate::dataset::spec_persons;
use crate::dataset::spec_programmings;
use crate::numtext::spec_u64_text;
use crate::numtext::u64_text;

verus! {

/// The name pool for persons.
pub open spec fn spec_person_name(i: u32) -> Seq<char> {
    if i == 0 {
        "Ali"@
    } else if i == 1 {
        "Mohammad"@
    } else if i == 2 {
        "Hassan"@
    } else if i == 3 {
        "Mahdi"@
    } else if i == 4 {
        "Sajjad"@
    } else {
        "Sadegh"@
    }
}

pub fn person_name(i: u32) -> (r: &'static str)
    ensures
        r@ == spec_person_name(i),
{
    if i == 0 {
        "Ali"
    } else if i == 1 {
        "Mohammad"
    } else if i == 2 {
        "Hassan"
    } else if i == 3 {
        "Mahdi"
    } else if i == 4 {
        "Sajjad"
    } else {
        "Sadegh"
    }
}

/// The name pool for courses.
pub open spec fn spec_course_name(i: u32) -> Seq<char> {
    if i == 0 {
        "Programming"@
    } else if i == 1 {
        "Math"@
    } else if i == 2 {
        "Physic"@
    } else if i == 3 {
        "Chemistry"@
    } else {
        "Sport"@
    }
}

pub fn course_name(i: u32) -> (r: &'static str)
    ensures
        r@ == spec_course_name(i),
{
    if i == 0 {
        "Programming"
    } else if i == 1 {
        "Math"
    } else if i == 2 {
        "Physic"
    } else if i == 3 {
        "Chemistry"
    } else {
        "Sport"
    }
}

/// The language pool for programming rows.
pub open spec fn spec_language_name(i: u32) -> Seq<char> {
    if i == 0 {
        "Python"@
    } else if i == 1 {
        "Javascript"@
    } else if i == 2 {
        "C#"@
    } else if i == 3 {
        "Java"@
    } else {
        "C"@
    }
}

pub fn language_name(i: u32) -> (r: &'static str)
    ensures
        r@ == spec_language_name(i),
{
    if i == 0 {
        "Python"
    } else if i == 1 {
        "Javascript"
    } else if i == 2 {
        "C#"
    } else if i == 3 {
        "Java"
    } else {
        "C"
    }
}

/// The textual grade pool for programming rows.
pub open spec fn spec_grade_name(i: u32) -> Seq<char> {
    if i == 0 {
        "High"@
    } else if i == 1 {
        "Normal"@
    } else {
        "Low"@
    }
}

pub fn grade_name(i: u32) -> (r: &'static str)
    ensures
        r@ == spec_grade_name(i),
{
    if i == 0 {
        "High"
    } else if i == 1 {
        "Normal"
    } else {
        "Low"
    }
}

/// A score in half-units rendered as a SQL REAL literal: 29 becomes "14.5",
/// 28 becomes "14.0".
pub open spec fn spec_score_text(halves: int) -> Seq<char> {
    spec_u64_text(halves / 2) + (if halves % 2 == 0 {
        ".0"@
    } else {
        ".5"@
    })
}

pub fn score_text(halves: u32) -> (r: String)
    ensures
        r@ == spec_score_text(halves as int),
{
    let mut s = u64_text((halves / 2) as u64);
    if halves % 2 == 0 {
        s.append(".0");
    } else {
        s.append(".5");
    }
    s
}

/// The schema batch: foreign keys on, then the three tables.
pub open spec fn spec_schema_sql() -> Seq<char> {
    "PRAGMA foreign_keys = ON; CREATE TABLE Persons(Id INTEGER PRIMARY KEY, Name TEXT, Age INTEGER, Grade INTEGER, [Score Quran] REAL); CREATE TABLE Courses(Id INTEGER PRIMARY KEY, PersonId INTEGER, Name TEXT, Score REAL); CREATE TABLE Programmings(Id INTEGER PRIMARY KEY, PersonId INTEGER, Language TEXT, Grade TEXT);"@
}

pub fn schema_sql() -> (r: &'static str)
    ensures
        r@ == spec_schema_sql(),
{
    "PRAGMA foreign_keys = ON; CREATE TABLE Persons(Id INTEGER PRIMARY KEY, Name TEXT, Age INTEGER, Grade INTEGER, [Score Quran] REAL); CREATE TABLE Courses(Id INTEGER PRIMARY KEY, PersonId INTEGER, Name TEXT, Score REAL); CREATE TABLE Programmings(Id INTEGER PRIMARY KEY, PersonId INTEGER, Language TEXT, Grade TEXT);"
}

/// The INSERT statement for one person row.
pub open spec fn spec_person_insert(row: PersonRow) -> Seq<char> {
    "INSERT INTO Persons (Id, Name, Age, Grade, [Score Quran]) VALUES ("@ + spec_u64_text(
        row.id as int,
    ) + ", '"@ + spec_person_name(row.name_idx) + "', "@ + spec_u64_text(row.age as int) + ", "@
        + spec_u64_text(row.grade as int) + ", "@ + spec_score_text(row.score_halves as int) + ")"@
}

pub fn person_insert_sql(row: &PersonRow) -> (r: String)
    ensures
        r@ == spec_person_insert(*row),
{
    let mut s = String::from_str("INSERT INTO Persons (Id, Name, Age, Grade, [Score Quran]) VALUES (");
    s.append(u64_text(row.id as u64).as_str());
    s.append(", '");
    s.append(person_name(row.name_idx));
    s.append("', ");
    s.append(u64_text(row.age as u64).as_str());
    s.append(", ");
    s.append(u64_text(row.grade as u64).as_str());
    s.append(", ");
    s.append(score_text(row.score_halves).as_str());
    s.append(")");
    proof {
        assert(s@ =~= spec_person_insert(*row));
    }
    s
}

/// The INSERT statement for one course row.
pub open spec fn spec_course_insert(row: CourseRow) -> Seq<char> {
    "INSERT INTO Courses (Id, PersonId, Name, Score) VALUES ("@ + spec_u64_text(row.id as int)
        + ", "@ + spec_u64_text(row.person_id as int) + ", '"@ + spec_course_name(row.name_idx)
        + "', "@ + spec_score_text(row.score_halves as int) + ")"@
}

pub fn course_insert_sql(row: &CourseRow) -> (r: String)
    ensures
        r@ == spec_course_insert(*row),
{
    let mut s = String::from_str("INSERT INTO Courses (Id, PersonId, Name, Score) VALUES (");
    s.append(u64_text(row.id as u64).as_str());
    s.append(", ");
    s.append(u64_text(row.person_id as u64).as_str());
    s.append(", '");
    s.append(course_name(row.name_idx));
    s.append("', ");
    s.append(score_text(row.score_halves).as_str());
    s.append(")");
    proof {
        assert(s@ =~= spec_course_insert(*row));
    }
    s
}

/// The INSERT statement for one programming row.
pub open spec fn spec_programming_insert(row: ProgrammingRow) -> Seq<char> {
    "INSERT INTO Programmings (Id, PersonId, Language, Grade) VALUES ("@ + spec_u64_text(
        row.id as int,
    ) + ", "@ + spec_u64_text(row.person_id as int) + ", '"@ + spec_language_name(row.lang_idx)
        + "', '"@ + spec_grade_name(row.grade_idx) + "')"@
}

pub fn programming_insert_sql(row: &ProgrammingRow) -> (r: String)
    ensures
        r@ == spec_programming_insert(*row),
{
    let mut s = String::from_str("INSERT INTO Programmings (Id, PersonId, Language, Grade) VALUES (");
    s.append(u64_text(row.id as u64).as_str());
    s.append(", ");
    s.append(u64_text(row.person_id as u64).as_str());
    s.append(", '");
    s.append(language_name(row.lang_idx));
    s.append("', '");
    s.append(grade_name(row.grade_idx));
    s.append("')");
    proof {
        assert(s@ =~= spec_programming_insert(*row));
    }
    s
}

/// The views of a list of built statements.
pub open spec fn str_views(v: Seq<String>) -> Seq<Seq<char>> {
    v.map_values(|s: String| s@)
}

/// The whole bootstrap script for a seed: schema first, then every person,
/// course and programming insert, in generation order.
pub open spec fn spec_script(seed: u64) -> Seq<Seq<char>> {
    seq![spec_schema_sql()] + spec_persons(seed).map_values(|r: PersonRow| spec_person_insert(r))
        + spec_courses(seed).map_values(|r: CourseRow| spec_course_insert(r)) + spec_programmings(
        seed,
    ).map_values(|r: ProgrammingRow| spec_programming_insert(r))
}

/// Build the bootstrap script for a dataset generated from `seed`. The
/// result is pinned to the seed alone: this, together with
/// `generate_dataset`, is what makes two bootstrap runs with one seed
/// byte-identical.
pub fn build_script(seed: u64, d: &Dataset) -> (r: Vec<String>)
    requires
        d.persons@ == spec_persons(seed),
        d.courses@ == spec_courses(seed),
        d.programmings@ == spec_programmings(seed),
    ensures
        str_views(r@) == spec_script(seed),
{
    let ghost persons_part = spec_persons(seed).map_values(|row: PersonRow| spec_person_insert(row));
    let ghost courses_part = spec_courses(seed).map_values(|row: CourseRow| spec_course_insert(row));
    let ghost programmings_part = spec_programmings(seed).map_values(
        |row: ProgrammingRow| spec_programming_insert(row),
    );
    let mut out: Vec<String> = Vec::new();
    out.push(String::from_str(schema_sql()));
    proof {
        assert(str_views(out@) =~= seq![spec_schema_sql()]);
    }
    let mut i: usize = 0;
    while i < d.persons.len()
        invariant
            i <= d.persons@.len(),
            d.persons@ == spec_persons(seed),
            str_views(out@) =~= seq![spec_schema_sql()] + persons_part.take(i as int),
            persons_part == spec_persons(seed).map_values(
                |row: PersonRow| spec_person_insert(row),
            ),
        decreases d.persons@.len() - i,
    {
        let s = person_insert_sql(&d.persons[i]);
        proof {
            out@.lemma_push_map_commute(|x: String| x@, s);
            assert(s@ == persons_part[i as int]);
            assert(persons_part.take(i as int + 1) =~= persons_part.take(i as int).push(
                persons_part[i as int],
            ));
            assert(str_views(out@.push(s)) =~= seq![spec_schema_sql()] + persons_part.take(
                i as int + 1,
            ));
        }
        out.push(s);
        i = i + 1;
    }
    proof {
        assert(persons_part.take(persons_part.len() as int) =~= persons_part);
    }
    let mut j: usize = 0;
    while j < d.courses.len()
        invariant
            j <= d.courses@.len(),
            d.courses@ == spec_courses(seed),
            str_views(out@) =~= seq![spec_schema_sql()] + persons_part + courses_part.take(
                j as int,
            ),
            persons_part == spec_persons(seed).map_values(
                |row: PersonRow| spec_person_insert(row),
            ),
            courses_part == spec_courses(seed).map_values(
                |row: CourseRow| spec_course_insert(row),
            ),
        decreases d.courses@.len() - j,
    {
        let s = course_insert_sql(&d.courses[j]);
        proof {
            out@.lemma_push_map_commute(|x: String| x@, s);
            assert(s@ == courses_part[j as int]);
            assert(courses_part.take(j as int + 1) =~= courses_part.take(j as int).push(
                courses_part[j as int],
            ));
            assert(str_views(out@.push(s)) =~= seq![spec_schema_sql()] + persons_part
                + courses_part.take(j as int + 1));
        }
        out.push(s);
        j = j + 1;
    }
    proof {
        assert(courses_part.take(courses_part.len() as int) =~= courses_part);
    }
    let mut k: usize = 0;
    while k < d.programmings.len()
        invariant
            k <= d.programmings@.len(),
            d.programmings@ == spec_programmings(seed),
            str_views(out@) =~= seq![spec_schema_sql()] + persons_part + courses_part
                + programmings_part.take(k as int),
            persons_part == spec_persons(seed).map_values(
                |row: PersonRow| spec_person_insert(row),
            ),
            courses_part == spec_courses(seed).map_values(
                |row: CourseRow| spec_course_insert(row),
            ),
            programmings_part == spec_programmings(seed).map_values(
                |row: ProgrammingRow| spec_programming_insert(row),
            ),
        decreases d.programmings@.len() - k,
    {
        let s = programming_insert_sql(&d.programmings[k]);
        proof {
            out@.lemma_push_map_commute(|x: String| x@, s);
            assert(s@ == programmings_part[k as int]);
            assert(programmings_part.take(k as int + 1) =~= programmings_part.take(k as int).push(
                programmings_part[k as int],
            ));
            assert(str_views(out@.push(s)) =~= seq![spec_schema_sql()] + persons_part
                + courses_part + programmings_part.take(k as int + 1));
        }
        out.push(s);
        k = k + 1;
    }
    proof {
        assert(programmings_part.take(programmings_part.len() as int) =~= programmings_part);
        assert(str_views(out@) =~= spec_script(seed));
    }
    out
}

} // verus!
