//! The deterministic value relationship: task index `pk` is stored with the
//! column values `(2 * pk, 3 * pk)`, and every select is checked against
//! that relationship, so a benchmark run doubles as a correctness check.

use vstd::prelude::*;
use crate::config::MAX_TASKS;

verus! {

/// Why a run was aborted. Every error the core can meet is fatal: the run
/// stops rather than reporting aggregates over a partially completed task
/// space.
#[derive(Clone, Copy, Debug, PartialEq, Eq, Structural)]
pub enum BenchError {
    /// The collaborator session reported a failed insert or select.
    OperationFailed,
    /// A select returned no row for its task index.
    NoRowReturned,
    /// A select returned more than one row for its task index.
    MultipleRowsReturned,
    /// A select returned a row whose values break the deterministic
    /// relationship to the task index.
    ValueMismatch,
}

/// The column values inserted for task index `pk`.
pub fn insert_values(pk: i64) -> (r: (i64, i64))
    requires
        0 <= pk <= MAX_TASKS,
    ensures
        r.0 == 2 * pk,
        r.1 == 3 * pk,
{
    (2 * pk, 3 * pk)
}

/// The verdict on what a select for task index `pk` returned: exactly one
/// row bearing `(2 * pk, 3 * pk)` passes; no row, several rows, or other
/// values are fatal correctness violations.
pub open spec fn spec_select_check(pk: int, rows: Seq<(i64, i64)>) -> Result<(), BenchError> {
    if rows.len() == 0 {
        Err(BenchError::NoRowReturned)
    } else if rows.len() > 1 {
        Err(BenchError::MultipleRowsReturned)
    } else if rows[0].0 == 2 * pk && rows[0].1 == 3 * pk {
        Ok(())
    } else {
        Err(BenchError::ValueMismatch)
    }
}

/// Check the rows a select returned against the deterministic relationship.
pub fn verify_select_rows(pk: i64, rows: &Vec<(i64, i64)>) -> (r: Result<(), BenchError>)
    requires
        0 <= pk <= MAX_TASKS,
    ensures
        r == spec_select_check(pk as int, rows@),
{
    if rows.len() == 0 {
        Err(BenchError::NoRowReturned)
    } else if rows.len() > 1 {
        Err(BenchError::MultipleRowsReturned)
    } else {
        let row = rows[0];
        if row.0 == 2 * pk && row.1 == 3 * pk {
            Ok(())
        } else {
            Err(BenchError::ValueMismatch)
        }
    }
}

/// Round trip of the deterministic value relationship: a select that returns
/// exactly the row an insert stored for the same task index passes the
/// check.
pub proof fn lemma_round_trip(pk: i64, v1: i64, v2: i64)
    requires
        0 <= pk,
        v1 == 2 * pk,
        v2 == 3 * pk,
    ensures
        spec_select_check(pk as int, seq![(v1, v2)]) is Ok,
{
}

} // verus!
