//! The interface to the embedded SQL engine behind a connection.
use crate::cell::Cell;
use vstd::prelude::*;

verus! {

/// A result as the engine hands it over: projected column names in position
/// order and the rows in the engine's output order.
pub struct RawTable {
    pub column_names: Vec<String>,
    pub rows: Vec<Vec<Cell>>,
}

/// A live connection to the embedded SQL engine. Nothing is assumed of what
/// it returns: every caller here states what holds for any outcome.
pub trait Engine {
    /// Runs statements that return no rows; `Err` carries the engine's message.
    fn run_batch(&self, sql: &str) -> Result<(), String>;

    /// Runs one statement and reads its whole result; `Err` carries the
    /// engine's message.
    fn query(&self, sql: &str) -> Result<RawTable, String>;
}

} // verus!
