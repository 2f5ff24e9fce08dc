//! The trusted boundary to the embedded SQLite engine (the `rusqlite`
//! crate). Each wrapper holds one engine call; everything around them —
//! the bootstrap script, the row loop, the JSON rendering — is verified.

use vstd::prelude::*;
use crate::json::Cell;

verus! {

#[verifier::external_type_specification]
#[verifier::external_body]
pub struct ExConnection(rusqlite::Connection);

#[verifier::external_type_specification]
#[verifier::external_body]
pub struct ExStatement<'conn>(rusqlite::Statement<'conn>);

#[verifier::external_type_specification]
#[verifier::external_body]
pub struct ExRow<'stmt>(rusqlite::Row<'stmt>);

#[verifier::external_type_specification]
#[verifier::external_body]
pub struct ExError(rusqlite::Error);

/// Relies on `rusqlite::Connection::open_in_memory`: opens a fresh,
/// private in-memory database instance, or reports the engine's error.
#[verifier::external_body]
pub(crate) fn open_in_memory() -> Result<rusqlite::Connection, rusqlite::Error> {
    rusqlite::Connection::open_in_memory()
}

/// Relies on `rusqlite::Connection::execute_batch`: runs the statements of
/// `sql` in order, stopping at the first engine error.
#[verifier::external_body]
pub(crate) fn execute_batch(conn: &rusqlite::Connection, sql: &str) -> Result<
    (),
    rusqlite::Error,
> {
    conn.execute_batch(sql)
}

/// Relies on `rusqlite::Error`'s `Display` implementation (through
/// `ToString`): the engine's native, human-readable error description.
#[verifier::external_body]
pub(crate) fn error_text(e: &rusqlite::Error) -> String {
    e.to_string()
}

/// Relies on `rusqlite::Connection::prepare`: compiles `sql` as a single
/// statement, or reports the engine's error (malformed SQL, unknown
/// table or column).
#[verifier::external_body]
pub(crate) fn prepare<'c>(conn: &'c rusqlite::Connection, sql: &str) -> Result<
    rusqlite::Statement<'c>,
    rusqlite::Error,
> {
    conn.prepare(sql)
}

/// Relies on `rusqlite::Statement::column_names`: the result column names
/// in exactly the order the engine reports them for this statement.
#[verifier::external_body]
pub(crate) fn column_names(stmt: &rusqlite::Statement) -> Vec<String> {
    stmt.column_names().iter().map(|s| s.to_string()).collect()
}

/// Relies on `rusqlite::Row::get_ref`: reads the typed value at column
/// `i`. Each engine variant moves to the matching `Cell` variant; a real
/// becomes its decimal text here (a non-finite real becomes `Null`, as the
/// JSON value model has no representation for it), and text bytes are
/// lossily repaired to valid text.
#[verifier::external_body]
pub(crate) fn cell_at(row: &rusqlite::Row, i: usize) -> Result<Cell, rusqlite::Error> {
    match row.get_ref(i) {
        Err(e) => Err(e),
        Ok(rusqlite::types::ValueRef::Null) => Ok(Cell::Null),
        Ok(rusqlite::types::ValueRef::Integer(n)) => Ok(Cell::Int(n)),
        Ok(rusqlite::types::ValueRef::Real(f)) if f.is_finite() => Ok(
            Cell::Real(format!("{:?}", f)),
        ),
        Ok(rusqlite::types::ValueRef::Real(_)) => Ok(Cell::Null),
        Ok(rusqlite::types::ValueRef::Text(t)) => Ok(
            Cell::Text(String::from_utf8_lossy(t).to_string()),
        ),
        Ok(rusqlite::types::ValueRef::Blob(_)) => Ok(Cell::Blob),
    }
}

/// Read every cell of one row, in column order.
pub(crate) fn read_row_cells(row: &rusqlite::Row, ncols: usize) -> (r: Result<
    Vec<Cell>,
    rusqlite::Error,
>)
    ensures
        r matches Ok(cells) ==> cells@.len() == ncols,
{
    let mut cells: Vec<Cell> = Vec::new();
    let mut i: usize = 0;
    while i < ncols
        invariant
            i <= ncols,
            cells@.len() == i,
        decreases ncols - i,
    {
        match cell_at(row, i) {
            Ok(c) => cells.push(c),
            Err(e) => {
                return Err(e);
            },
        }
        i = i + 1;
    }
    Ok(cells)
}

/// Relies on `rusqlite::Statement::query_map` with no bound parameters:
/// executes the statement and hands every result row, in engine-delivered
/// order, through the verified `read_row_cells`, whose contract gives each
/// collected row exactly `ncols` cells. The first engine error during
/// iteration fails the whole call; no partial row list is returned.
#[verifier::external_body]
pub(crate) fn collect_rows(stmt: &mut rusqlite::Statement, ncols: usize) -> (r: Result<
    Vec<Vec<Cell>>,
    rusqlite::Error,
>)
    ensures
        r matches Ok(rows) ==> forall|i: int|
            0 <= i < rows@.len() ==> (#[trigger] rows@[i])@.len() == ncols,
{
    match stmt.query_map([], |row| read_row_cells(row, ncols)) {
        Ok(mapped) => mapped.collect(),
        Err(e) => Err(e),
    }
}

} // verus!
