//! The two entry points: the dataset bootstrapper and the query executor.
//!
//! The caller owns an explicit `DbSlot` (the set-once singleton reframed
//! as a passed-in slot): `init_db` fills it exactly once, and
//! `execute_query` runs one SQL statement against the ready slot's
//! database. A second `init_db` on a ready slot fails with
//! `AlreadyInitialized` and leaves the slot untouched; an engine failure
//! during bootstrap leaves the slot uninitialized, so partial construction
//! is never observable.

use vstd::prelude::*;
use crate::dataset::generate_dataset;
use crate::engine;
use crate::json::Cell;
use crate::json::render_result;
use crate::json::row_views;
use crate::json::spec_result_json;
use crate::json::string_views;
use crate::script::build_script;
use crate::script::spec_script;
use crate::script::str_views;

verus! {

/// The fixed seed the bootstrapper feeds the pseudo-random generator, so
/// that every bootstrap loads the identical dataset.
pub const BOOTSTRAP_SEED: u64 = 42;

/// Why initialization failed: a second attempt on an already-filled slot,
/// or an engine error while running the bootstrap script.
#[derive(Debug)]
pub enum InitError {
    AlreadyInitialized,
    Engine(String),
}

impl InitError {
    /// The error as displayable text: the engine's native description, or
    /// the fixed double-initialization message.
    pub fn text(&self) -> (r: String)
        ensures
            self is AlreadyInitialized ==> r@ == "DB already initialized"@,
            self matches InitError::Engine(detail) ==> r == detail,
    {
        match self {
            InitError::AlreadyInitialized => "DB already initialized".to_owned(),
            InitError::Engine(detail) => detail.clone(),
        }
    }
}

/// A ready database: the engine handle, and (as ghost state) the script
/// that built its dataset.
pub struct Database {
    conn: rusqlite::Connection,
    script: Ghost<Seq<Seq<char>>>,
}

impl Database {
    /// The bootstrap script this database was loaded with.
    pub closed spec fn script(self) -> Seq<Seq<char>> {
        self.script@
    }
}

/// The explicit initialization-state slot: empty until one bootstrap
/// succeeds, then ready forever after.
pub enum DbSlot {
    Uninitialized,
    Ready(Database),
}

impl DbSlot {
    pub fn is_ready(&self) -> (b: bool)
        ensures
            b == (self is Ready),
    {
        match self {
            DbSlot::Ready(_) => true,
            DbSlot::Uninitialized => false,
        }
    }
}

/// Bootstrap the dataset into a fresh in-memory database and publish it
/// into `slot`, exactly once.
///
/// On a slot that is already ready this fails with `AlreadyInitialized` —
/// distinct from every engine error — and leaves the published database
/// untouched. Otherwise it opens a fresh instance and runs the bootstrap
/// script for the fixed seed; the script is a function of the seed alone,
/// so two successful bootstraps load byte-identical datasets. On an engine
/// error the slot stays uninitialized.
pub fn init_db(slot: &mut DbSlot) -> (r: Result<(), InitError>)
    ensures
        *old(slot) is Ready ==> (r matches Err(InitError::AlreadyInitialized)) && *final(slot)
            == *old(slot),
        !(*old(slot) is Ready) ==> match r {
            Ok(()) => *final(slot) is Ready && (*final(slot))->Ready_0.script() == spec_script(
                BOOTSTRAP_SEED,
            ),
            Err(e) => e is Engine && *final(slot) is Uninitialized,
        },
{
    if slot.is_ready() {
        return Err(InitError::AlreadyInitialized);
    }
    let conn = match engine::open_in_memory() {
        Ok(c) => c,
        Err(e) => {
            *slot = DbSlot::Uninitialized;
            return Err(InitError::Engine(engine::error_text(&e)));
        },
    };
    let d = generate_dataset(BOOTSTRAP_SEED);
    let script = build_script(BOOTSTRAP_SEED, &d);
    let mut i: usize = 0;
    while i < script.len()
        invariant
            !(*old(slot) is Ready),
            *slot == *old(slot),
        decreases script@.len() - i,
    {
        match engine::execute_batch(&conn, script[i].as_str()) {
            Ok(_) => {},
            Err(e) => {
                *slot = DbSlot::Uninitialized;
                return Err(InitError::Engine(engine::error_text(&e)));
            },
        }
        i = i + 1;
    }
    *slot = DbSlot::Ready(Database { conn, script: Ghost(str_views(script@)) });
    Ok(())
}

/// Determinism of the bootstrap: any two databases that `init_db`
/// published were loaded with the identical statement list, because the
/// script is a function of the fixed seed alone. Together with the engine
/// executing identical statements identically, two independent bootstrap
/// runs hold byte-identical datasets.
pub proof fn lemma_bootstrap_deterministic(a: Database, b: Database)
    requires
        a.script() == spec_script(BOOTSTRAP_SEED),
        b.script() == spec_script(BOOTSTRAP_SEED),
    ensures
        a.script() == b.script(),
{
}

/// Execute one SQL statement against the ready database and serialize the
/// result.
///
/// On success the text is exactly the JSON rendering of the column names
/// the engine reported, in their reported order, and of the delivered
/// rows, in their delivered order, under the library's JSON value model
/// (`spec_result_json`). Any engine failure — preparation or row
/// iteration — fails the whole call with the engine's native error text;
/// no partial result is ever returned.
pub fn execute_query(db: &Database, query: String) -> (r: Result<String, String>)
    ensures
        r matches Ok(text) ==> exists|cols: Seq<Seq<char>>, rows: Seq<Seq<Cell>>|
            text@ == spec_result_json(cols, rows) && (forall|i: int|
                0 <= i < rows.len() ==> (#[trigger] rows[i]).len() == cols.len()),
{
    let mut stmt = match engine::prepare(&db.conn, query.as_str()) {
        Ok(s) => s,
        Err(e) => {
            return Err(engine::error_text(&e));
        },
    };
    let cols = engine::column_names(&stmt);
    let rows = match engine::collect_rows(&mut stmt, cols.len()) {
        Ok(r) => r,
        Err(e) => {
            return Err(engine::error_text(&e));
        },
    };
    let text = render_result(&cols, &rows);
    proof {
        let cv = string_views(cols@);
        let rv = row_views(rows@);
        assert forall|i: int| 0 <= i < rv.len() implies (#[trigger] rv[i]).len() == cv.len() by {
            assert(rv[i] == rows@[i]@);
        }
        assert(text@ == spec_result_json(cv, rv));
    }
    Ok(text)
}

} // verus!
