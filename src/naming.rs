//! Identifiers derived from user input, and the SQL text built around them.
use crate::platform::{
    alphanumeric, ascii_alphanumeric, file_stem, is_alphanumeric, path_stem, plain_name_with_dot,
};
use vstd::prelude::*;

verus! {

/// A character kept in a derived identifier: letters, digits and `_` stay,
/// anything else becomes `_`.
pub open spec fn identifier_char(c: char) -> char {
    if alphanumeric(c) || c == '_' {
        c
    } else {
        '_'
    }
}

/// `identifier_char` on an ASCII character: ASCII letters, digits and `_`
/// stay, anything else becomes `_`.
pub open spec fn ascii_identifier_char(c: char) -> char {
    if ascii_alphanumeric(c) || c == '_' {
        c
    } else {
        '_'
    }
}

/// `s` with every character that is neither alphanumeric nor `_` replaced by `_`.
pub open spec fn safe_identifier(s: Seq<char>) -> Seq<char> {
    s.map_values(|c: char| identifier_char(c))
}

/// The table an import goes to: the explicit name when one is given,
/// else the safe identifier of the file's stem.
pub open spec fn import_table(file_path: Seq<char>, table_name: Seq<char>) -> Option<Seq<char>> {
    if table_name.len() > 0 {
        Some(table_name)
    } else {
        match path_stem(file_path) {
            Some(stem) => Some(safe_identifier(stem)),
            None => None,
        }
    }
}

pub open spec fn index_name_spec(table: Seq<char>, column: Seq<char>) -> Seq<char> {
    "idx_"@ + table + "_"@ + column
}

pub open spec fn create_table_sql_spec(table: Seq<char>, file_path: Seq<char>) -> Seq<char> {
    "CREATE TABLE "@ + table + " AS SELECT * FROM read_parquet('"@ + file_path + "');"@
}

pub open spec fn count_sql_spec(table: Seq<char>) -> Seq<char> {
    "SELECT COUNT(*) FROM "@ + table
}

pub open spec fn create_index_sql_spec(index: Seq<char>, table: Seq<char>, column: Seq<char>) -> Seq<char> {
    "CREATE INDEX "@ + index + " ON "@ + table + " ("@ + column + ");"@
}

pub open spec fn table_info_sql_spec(table: Seq<char>) -> Seq<char> {
    "PRAGMA table_info('"@ + table + "')"@
}

pub open spec fn index_list_sql_spec(table: Seq<char>) -> Seq<char> {
    "SELECT index_name FROM duckdb_indexes() WHERE table_name = '"@ + table + "'"@
}

/// Replaces every character that is neither alphanumeric nor `_` by `_`.
pub fn safe_table_name(stem: &str) -> (r: String)
    ensures
        r@ == safe_identifier(stem@),
        r@.len() == stem@.len(),
        forall|k: int|
            0 <= k < stem@.len() && (stem@[k] as u32) < 128 ==> #[trigger] r@[k]
                == ascii_identifier_char(stem@[k]),
{
    let n = stem.unicode_len();
    let mut out = String::new();
    let mut i: usize = 0;
    while i < n
        invariant
            n == stem@.len(),
            i <= n,
            out@ == safe_identifier(stem@.subrange(0, i as int)),
            forall|k: int|
                0 <= k < i && (stem@[k] as u32) < 128 ==> alphanumeric(#[trigger] stem@[k])
                    == ascii_alphanumeric(stem@[k]),
        decreases n - i,
    {
        proof {
            reveal_strlit("_");
        }
        assert("_"@ =~= seq!['_']);
        let c = stem.get_char(i);
        if is_alphanumeric(c) || c == '_' {
            let piece = stem.substring_char(i, i + 1);
            assert(piece@ =~= seq![c]);
            out.append(piece);
        } else {
            out.append("_");
        }
        assert(stem@.subrange(0, i as int + 1) =~= stem@.subrange(0, i as int).push(c));
        assert(safe_identifier(stem@.subrange(0, i as int).push(c)) =~= safe_identifier(
            stem@.subrange(0, i as int),
        ).push(identifier_char(c)));
        assert(out@ =~= safe_identifier(stem@.subrange(0, i as int + 1)));
        i = i + 1;
    }
    assert(stem@.subrange(0, n as int) =~= stem@);
    assert forall|k: int|
        0 <= k < stem@.len() && (stem@[k] as u32) < 128 implies #[trigger] out@[k]
            == ascii_identifier_char(stem@[k]) by {
        assert(out@[k] == identifier_char(stem@[k]));
    }
    out
}

/// The table that importing `file_path` creates: `table_name` when it is not
/// empty, else the file's stem made safe; `None` when the path has no stem.
pub fn import_table_name(file_path: &str, table_name: &str) -> (r: Option<String>)
    ensures
        match r {
            Some(t) => import_table(file_path@, table_name@) == Some(t@),
            None => import_table(file_path@, table_name@) is None,
        },
        forall|d: int|
            table_name@.len() == 0 && plain_name_with_dot(file_path@, d) ==> r is Some
                && r->Some_0@.len() == d && forall|k: int|
                0 <= k < d && (file_path@[k] as u32) < 128 ==> #[trigger] r->Some_0@[k]
                    == ascii_identifier_char(file_path@[k]),
{
    if table_name.unicode_len() > 0 {
        return Some(String::from_str(table_name));
    }
    match file_stem(file_path) {
        Some(stem) => Some(safe_table_name(stem.as_str())),
        None => None,
    }
}

/// The name of the index on `table`.`column`: `idx_<table>_<column>`.
pub fn index_name(table: &str, column: &str) -> (r: String)
    ensures
        r@ == index_name_spec(table@, column@),
{
    let mut out = String::from_str("idx_");
    out.append(table);
    out.append("_");
    out.append(column);
    out
}

/// The statement that creates `table` from the Parquet file at `file_path`.
pub fn create_table_sql(table: &str, file_path: &str) -> (r: String)
    ensures
        r@ == create_table_sql_spec(table@, file_path@),
{
    let mut out = String::from_str("CREATE TABLE ");
    out.append(table);
    out.append(" AS SELECT * FROM read_parquet('");
    out.append(file_path);
    out.append("');");
    out
}

/// The statement that counts the rows of `table`.
pub fn count_sql(table: &str) -> (r: String)
    ensures
        r@ == count_sql_spec(table@),
{
    let mut out = String::from_str("SELECT COUNT(*) FROM ");
    out.append(table);
    out
}

/// The statement that creates the index `index` on `table`.`column`.
pub fn create_index_sql(index: &str, table: &str, column: &str) -> (r: String)
    ensures
        r@ == create_index_sql_spec(index@, table@, column@),
{
    let mut out = String::from_str("CREATE INDEX ");
    out.append(index);
    out.append(" ON ");
    out.append(table);
    out.append(" (");
    out.append(column);
    out.append(");");
    out
}

/// The statement that lists the columns of `table` (name in column 1, type in column 2).
pub fn table_info_sql(table: &str) -> (r: String)
    ensures
        r@ == table_info_sql_spec(table@),
{
    let mut out = String::from_str("PRAGMA table_info('");
    out.append(table);
    out.append("')");
    out
}

/// The statement that lists the names of the indexes on `table`.
pub fn index_list_sql(table: &str) -> (r: String)
    ensures
        r@ == index_list_sql_spec(table@),
{
    let mut out = String::from_str("SELECT index_name FROM duckdb_indexes() WHERE table_name = '");
    out.append(table);
    out.append("'");
    out
}

} // verus!
