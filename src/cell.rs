//! One result cell as the engine hands it over, and the fixed policy that
//! turns it into display text.
use crate::platform::{lossy_utf8, utf8_lossy};
use crate::text::{append_decimal, decimal, signed_decimal, signed_text, unsigned_text};
use vstd::prelude::*;

verus! {

/// A cell of a result row, tagged by the kind of value the engine produced.
pub enum Cell {
    Null,
    Boolean(bool),
    Signed(i128),
    Unsigned(u128),
    /// A floating-point value, already in its default textual form.
    Real(String),
    /// Text as raw bytes; invalid UTF-8 is tolerated.
    Text(Vec<u8>),
    /// Binary data: only its length in bytes is kept.
    Blob(usize),
    /// A value of a kind that has no textual form here.
    Other,
    /// The engine failed to read this cell.
    Unreadable,
}

/// The display text of a cell.
pub open spec fn cell_text(c: Cell) -> Seq<char> {
    match c {
        Cell::Null => "NULL"@,
        Cell::Boolean(b) => if b {
            "true"@
        } else {
            "false"@
        },
        Cell::Signed(i) => signed_decimal(i as int),
        Cell::Unsigned(u) => decimal(u as nat),
        Cell::Real(s) => s@,
        Cell::Text(bytes) => lossy_utf8(bytes@),
        Cell::Blob(len) => "BLOB("@ + decimal(len as nat) + ")"@,
        Cell::Other => "ERROR"@,
        Cell::Unreadable => "ERROR"@,
    }
}

/// Renders a cell: "NULL", decimal text for integers, the float's own text,
/// lossily decoded text, "BLOB(<length>)" for binary data, "ERROR" otherwise.
pub fn render_cell(c: &Cell) -> (r: String)
    ensures
        r@ == cell_text(*c),
{
    match c {
        Cell::Null => String::from_str("NULL"),
        Cell::Boolean(b) => if *b {
            String::from_str("true")
        } else {
            String::from_str("false")
        },
        Cell::Signed(i) => signed_text(*i),
        Cell::Unsigned(u) => unsigned_text(*u),
        Cell::Real(s) => s.clone(),
        Cell::Text(bytes) => utf8_lossy(bytes.as_slice()),
        Cell::Blob(len) => {
            let mut out = String::from_str("BLOB(");
            append_decimal(&mut out, *len as u128);
            out.append(")");
            out
        },
        Cell::Other => String::from_str("ERROR"),
        Cell::Unreadable => String::from_str("ERROR"),
    }
}

/// The text of column `j` of a row: the cell's text, or "ERROR" where the
/// row has no cell there.
pub open spec fn column_text(row: Seq<Cell>, j: int) -> Seq<char> {
    if 0 <= j < row.len() {
        cell_text(row[j])
    } else {
        "ERROR"@
    }
}

/// Renders the first `width` columns of a row, in order.
pub fn render_row(cells: &Vec<Cell>, width: usize) -> (r: Vec<String>)
    ensures
        r@.len() == width,
        forall|j: int| 0 <= j < width ==> (#[trigger] r@[j])@ == column_text(cells@, j),
{
    let mut out: Vec<String> = Vec::new();
    let mut j: usize = 0;
    while j < width
        invariant
            j <= width,
            out@.len() == j,
            forall|k: int| 0 <= k < j ==> (#[trigger] out@[k])@ == column_text(cells@, k),
        decreases width - j,
    {
        let text = if j < cells.len() {
            render_cell(&cells[j])
        } else {
            String::from_str("ERROR")
        };
        out.push(text);
        j = j + 1;
    }
    out
}

} // verus!
