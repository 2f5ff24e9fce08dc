//! The synthetic dataset the bootstrapper loads: one primary table of
//! persons and two dependent tables that reference persons by foreign key.
//!
//! Every generated value is pinned at the specification level as a function
//! of the seed alone (`spec_persons`, `spec_courses`, `spec_programmings`),
//! so two runs with the same seed generate the same rows in the same order.
//! Scores are held in half-units (a value of 29 stands for 14.5) so that
//! the whole dataset is integral.

use vstd::prelude::*;
use crate::rng::SeedRng;
use crate::rng::rng_draw;

verus! {

/// How many rows each table receives.
pub const PERSON_COUNT: u32 = 100;

pub const COURSE_COUNT: u32 = 200;

pub const PROGRAMMING_COUNT: u32 = 300;

/// How many entries each fixed pool offers (names, course names,
/// languages, textual grades, allowed scores).
pub const NAME_POOL_LEN: u32 = 6;

pub const COURSE_POOL_LEN: u32 = 5;

pub const LANGUAGE_POOL_LEN: u32 = 5;

pub const GRADE_POOL_LEN: u32 = 3;

pub const SCORE_POOL_LEN: u32 = 21;

/// One row of the primary table. `name_idx` indexes the fixed name pool;
/// `score_halves` holds twice the score, so 20..=40 stands for 10.0..=20.0.
#[derive(Clone, Copy, PartialEq, Eq, Structural, Debug)]
pub struct PersonRow {
    pub id: u32,
    pub name_idx: u32,
    pub age: u32,
    pub grade: u32,
    pub score_halves: u32,
}

/// One row of the dependent course table; `person_id` references a person.
#[derive(Clone, Copy, PartialEq, Eq, Structural, Debug)]
pub struct CourseRow {
    pub id: u32,
    pub person_id: u32,
    pub name_idx: u32,
    pub score_halves: u32,
}

/// One row of the dependent programming table; `person_id` references a
/// person.
#[derive(Clone, Copy, PartialEq, Eq, Structural, Debug)]
pub struct ProgrammingRow {
    pub id: u32,
    pub person_id: u32,
    pub lang_idx: u32,
    pub grade_idx: u32,
}

/// The bounds drawn before the person at position `i`: four draws per
/// earlier person (name, age offset, grade offset, score index).
pub open spec fn person_prior(i: int) -> Seq<u32>
    decreases i,
{
    if i <= 0 {
        Seq::empty()
    } else {
        person_prior(i - 1) + seq![NAME_POOL_LEN, 20u32, GRADE_POOL_LEN, SCORE_POOL_LEN]
    }
}

/// The bounds drawn before the course at position `i`: all person draws,
/// then two draws per earlier course (name, score index).
pub open spec fn course_prior(i: int) -> Seq<u32>
    decreases i,
{
    if i <= 0 {
        person_prior(PERSON_COUNT as int)
    } else {
        course_prior(i - 1) + seq![COURSE_POOL_LEN, SCORE_POOL_LEN]
    }
}

/// The bounds drawn before the programming row at position `i`.
pub open spec fn programming_prior(i: int) -> Seq<u32>
    decreases i,
{
    if i <= 0 {
        course_prior(COURSE_COUNT as int)
    } else {
        programming_prior(i - 1) + seq![LANGUAGE_POOL_LEN, GRADE_POOL_LEN]
    }
}

/// The person generated at position `i` (0-based): its id is `i + 1`, and
/// every attribute is a draw determined by the seed and the draw history.
pub open spec fn spec_person(seed: u64, i: int) -> PersonRow {
    let p = person_prior(i);
    PersonRow {
        id: (i + 1) as u32,
        name_idx: rng_draw(seed, p, NAME_POOL_LEN),
        age: (18 + rng_draw(seed, p.push(NAME_POOL_LEN), 20u32)) as u32,
        grade: (1 + rng_draw(seed, p.push(NAME_POOL_LEN).push(20u32), GRADE_POOL_LEN)) as u32,
        score_halves: (20 + rng_draw(
            seed,
            p.push(NAME_POOL_LEN).push(20u32).push(GRADE_POOL_LEN),
            SCORE_POOL_LEN,
        )) as u32,
    }
}

/// The course generated at position `i`: its id is `i + 1` and its foreign
/// key is computed from its own position, `(id % 100) + 1`.
pub open spec fn spec_course(seed: u64, i: int) -> CourseRow {
    let p = course_prior(i);
    CourseRow {
        id: (i + 1) as u32,
        person_id: (((i + 1) % (PERSON_COUNT as int)) + 1) as u32,
        name_idx: rng_draw(seed, p, COURSE_POOL_LEN),
        score_halves: (20 + rng_draw(seed, p.push(COURSE_POOL_LEN), SCORE_POOL_LEN)) as u32,
    }
}

/// The programming row generated at position `i`.
pub open spec fn spec_programming(seed: u64, i: int) -> ProgrammingRow {
    let p = programming_prior(i);
    ProgrammingRow {
        id: (i + 1) as u32,
        person_id: (((i + 1) % (PERSON_COUNT as int)) + 1) as u32,
        lang_idx: rng_draw(seed, p, LANGUAGE_POOL_LEN),
        grade_idx: rng_draw(seed, p.push(LANGUAGE_POOL_LEN), GRADE_POOL_LEN),
    }
}

pub open spec fn spec_persons(seed: u64) -> Seq<PersonRow> {
    Seq::new(PERSON_COUNT as nat, |i: int| spec_person(seed, i))
}

pub open spec fn spec_courses(seed: u64) -> Seq<CourseRow> {
    Seq::new(COURSE_COUNT as nat, |i: int| spec_course(seed, i))
}

pub open spec fn spec_programmings(seed: u64) -> Seq<ProgrammingRow> {
    Seq::new(PROGRAMMING_COUNT as nat, |i: int| spec_programming(seed, i))
}

/// The three generated tables, in insertion order.
pub struct Dataset {
    pub persons: Vec<PersonRow>,
    pub courses: Vec<CourseRow>,
    pub programmings: Vec<ProgrammingRow>,
}

/// Generate the whole dataset from the seed. The result is pinned to the
/// seed alone, which is what makes bootstrap runs reproducible.
pub fn generate_dataset(seed: u64) -> (d: Dataset)
    ensures
        d.persons@ == spec_persons(seed),
        d.courses@ == spec_courses(seed),
        d.programmings@ == spec_programmings(seed),
{
    let mut rng = SeedRng::new(seed);
    let mut persons: Vec<PersonRow> = Vec::new();
    let mut i: usize = 0;
    while i < PERSON_COUNT as usize
        invariant
            i <= PERSON_COUNT,
            rng.seed() == seed,
            rng.prior() == person_prior(i as int),
            persons@ == spec_persons(seed).take(i as int),
        decreases PERSON_COUNT - i,
    {
        let ghost p = rng.prior();
        let name_idx = rng.draw(NAME_POOL_LEN);
        let age_off = rng.draw(20);
        let grade_off = rng.draw(GRADE_POOL_LEN);
        let score_idx = rng.draw(SCORE_POOL_LEN);
        let row = PersonRow {
            id: (i as u32) + 1,
            name_idx,
            age: 18 + age_off,
            grade: 1 + grade_off,
            score_halves: 20 + score_idx,
        };
        proof {
            assert(row == spec_person(seed, i as int));
            assert(rng.prior() =~= person_prior(i as int + 1));
            assert(persons@.push(row) =~= spec_persons(seed).take(i as int + 1));
        }
        persons.push(row);
        i = i + 1;
    }
    proof {
        assert(persons@ =~= spec_persons(seed));
        assert(course_prior(0) == person_prior(PERSON_COUNT as int));
    }
    let mut courses: Vec<CourseRow> = Vec::new();
    let mut j: usize = 0;
    while j < COURSE_COUNT as usize
        invariant
            j <= COURSE_COUNT,
            rng.seed() == seed,
            rng.prior() == course_prior(j as int),
            courses@ == spec_courses(seed).take(j as int),
        decreases COURSE_COUNT - j,
    {
        let name_idx = rng.draw(COURSE_POOL_LEN);
        let score_idx = rng.draw(SCORE_POOL_LEN);
        let id = (j as u32) + 1;
        let row = CourseRow {
            id,
            person_id: (id % PERSON_COUNT) + 1,
            name_idx,
            score_halves: 20 + score_idx,
        };
        proof {
            assert(row == spec_course(seed, j as int));
            assert(rng.prior() =~= course_prior(j as int + 1));
            assert(courses@.push(row) =~= spec_courses(seed).take(j as int + 1));
        }
        courses.push(row);
        j = j + 1;
    }
    proof {
        assert(courses@ =~= spec_courses(seed));
        assert(programming_prior(0) == course_prior(COURSE_COUNT as int));
    }
    let mut programmings: Vec<ProgrammingRow> = Vec::new();
    let mut k: usize = 0;
    while k < PROGRAMMING_COUNT as usize
        invariant
            k <= PROGRAMMING_COUNT,
            rng.seed() == seed,
            rng.prior() == programming_prior(k as int),
            programmings@ == spec_programmings(seed).take(k as int),
        decreases PROGRAMMING_COUNT - k,
    {
        let lang_idx = rng.draw(LANGUAGE_POOL_LEN);
        let grade_idx = rng.draw(GRADE_POOL_LEN);
        let id = (k as u32) + 1;
        let row = ProgrammingRow { id, person_id: (id % PERSON_COUNT) + 1, lang_idx, grade_idx };
        proof {
            assert(row == spec_programming(seed, k as int));
            assert(rng.prior() =~= programming_prior(k as int + 1));
            assert(programmings@.push(row) =~= spec_programmings(seed).take(k as int + 1));
        }
        programmings.push(row);
        k = k + 1;
    }
    proof {
        assert(programmings@ =~= spec_programmings(seed));
    }
    Dataset { persons, courses, programmings }
}

/// Every dependent row's foreign key resolves to a generated person: the
/// person at position `person_id - 1` carries exactly that id, for any seed.
pub proof fn lemma_referential_integrity(seed: u64)
    ensures
        forall|i: int|
            0 <= i < spec_courses(seed).len() ==> 1 <= (
            #[trigger] spec_courses(seed)[i]).person_id <= spec_persons(seed).len()
                && spec_persons(seed)[spec_courses(seed)[i].person_id - 1].id == spec_courses(
                seed,
            )[i].person_id,
        forall|i: int|
            0 <= i < spec_programmings(seed).len() ==> 1 <= (
            #[trigger] spec_programmings(seed)[i]).person_id <= spec_persons(seed).len()
                && spec_persons(seed)[spec_programmings(seed)[i].person_id - 1].id
                == spec_programmings(seed)[i].person_id,
{
    assert forall|i: int| 0 <= i < spec_courses(seed).len() implies 1 <= (
    #[trigger] spec_courses(seed)[i]).person_id <= spec_persons(seed).len() && spec_persons(
        seed,
    )[spec_courses(seed)[i].person_id - 1].id == spec_courses(seed)[i].person_id by {
        let pid = spec_courses(seed)[i].person_id as int;
        assert(1 <= pid <= PERSON_COUNT);
        assert(spec_persons(seed)[pid - 1].id == pid);
    }
    assert forall|i: int| 0 <= i < spec_programmings(seed).len() implies 1 <= (
    #[trigger] spec_programmings(seed)[i]).person_id <= spec_persons(seed).len() && spec_persons(
        seed,
    )[spec_programmings(seed)[i].person_id - 1].id == spec_programmings(seed)[i].person_id by {
        let pid = spec_programmings(seed)[i].person_id as int;
        assert(1 <= pid <= PERSON_COUNT);
        assert(spec_persons(seed)[pid - 1].id == pid);
    }
}

} // verus!
