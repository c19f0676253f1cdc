use duck_access::api::{
    create_table_index, get_all_indices, get_all_tables, import_parquet_file, init_database,
    run_query,
};
use duck_access::cell::{render_cell, render_row, Cell};
use duck_access::db::{
    classify_failure, count_of, create_index, snapshot_from, table_info_from, execute_query, get_database_info, import_file,
    import_parquet, index_list, marshal, schema_of, Database, DatabaseInfo, DbError, TableInfo,
};
use duck_access::engine::{Engine, RawTable};
use duck_access::naming::{
    count_sql, create_index_sql, create_table_sql, import_table_name, index_list_sql, index_name,
    safe_table_name, table_info_sql,
};
use duck_access::text::{join_text, same_text, signed_text, text_contains, unsigned_text};
use std::cell::RefCell;

/// A small catalog kept in memory that answers the statements this library issues.
struct MemoryEngine {
    tables: RefCell<Vec<(String, i64)>>,
    indexes: RefCell<Vec<(String, String)>>,
}

impl MemoryEngine {
    fn new() -> MemoryEngine {
        MemoryEngine {
            tables: RefCell::new(Vec::new()),
            indexes: RefCell::new(Vec::new()),
        }
    }
}

fn text(s: &str) -> Cell {
    Cell::Text(s.as_bytes().to_vec())
}

trait CloneTable {
    fn clone_table(&self) -> RawTable;
}

impl CloneTable for RawTable {
    fn clone_table(&self) -> RawTable {
        RawTable {
            column_names: self.column_names.clone(),
            rows: self.rows.iter().map(|r| r.iter().map(clone_cell).collect()).collect(),
        }
    }
}

fn clone_cell(c: &Cell) -> Cell {
    match c {
        Cell::Null => Cell::Null,
        Cell::Boolean(b) => Cell::Boolean(*b),
        Cell::Signed(n) => Cell::Signed(*n),
        Cell::Unsigned(n) => Cell::Unsigned(*n),
        Cell::Real(s) => Cell::Real(s.clone()),
        Cell::Text(b) => Cell::Text(b.clone()),
        Cell::Blob(n) => Cell::Blob(*n),
        Cell::Other => Cell::Other,
        Cell::Unreadable => Cell::Unreadable,
    }
}

fn one_column(name: &str, cells: Vec<Cell>) -> RawTable {
    RawTable { column_names: vec![name.to_string()], rows: cells.into_iter().map(|c| vec![c]).collect() }
}

impl Engine for MemoryEngine {
    fn run_batch(&self, sql: &str) -> Result<(), String> {
        if let Some(rest) = sql.strip_prefix("CREATE TABLE ") {
            let name = rest.split(' ').next().unwrap_or("").to_string();
            if rest.contains("missing.parquet") {
                return Err("IO Error: No files found that match the pattern \"missing.parquet\"".to_string());
            }
            if self.tables.borrow().iter().any(|(t, _)| *t == name) {
                return Err(format!("Catalog Error: Table with name {} already exists!", name));
            }
            self.tables.borrow_mut().push((name, 3));
            return Ok(());
        }
        if let Some(rest) = sql.strip_prefix("CREATE INDEX ") {
            let mut words = rest.split(' ');
            let index = words.next().unwrap_or("").to_string();
            let table = words.nth(1).unwrap_or("").to_string();
            if self.indexes.borrow().iter().any(|(i, _)| *i == index) {
                return Err(format!("Catalog Error: Index with name \"{}\" already exists!", index));
            }
            self.indexes.borrow_mut().push((index, table));
            return Ok(());
        }
        Err("Parser Error: syntax error".to_string())
    }

    fn query(&self, sql: &str) -> Result<RawTable, String> {
        if sql == "SELECT 1" {
            return Ok(one_column("1", vec![Cell::Signed(1)]));
        }
        if sql == "SELECT table_name FROM duckdb_tables()" {
            let names = self.tables.borrow().iter().map(|(t, _)| text(t)).collect();
            return Ok(one_column("table_name", names));
        }
        if let Some(t) = sql.strip_prefix("SELECT COUNT(*) FROM ") {
            return match self.tables.borrow().iter().find(|(n, _)| n == t) {
                Some((_, c)) => Ok(one_column("count_star()", vec![Cell::Signed(*c as i128)])),
                None => Err(format!("Catalog Error: Table with name {} does not exist!", t)),
            };
        }
        if sql.starts_with("PRAGMA table_info(") {
            return Ok(RawTable {
                column_names: vec!["cid".to_string(), "name".to_string(), "type".to_string()],
                rows: vec![
                    vec![Cell::Signed(0), text("id"), text("INTEGER")],
                    vec![Cell::Signed(1), text("label"), text("VARCHAR")],
                ],
            });
        }
        if let Some(rest) = sql.strip_prefix("SELECT index_name FROM duckdb_indexes() WHERE table_name = '") {
            let table = rest.trim_end_matches('\'');
            let names = self
                .indexes
                .borrow()
                .iter()
                .filter(|(_, t)| t == table)
                .map(|(i, _)| text(i))
                .collect();
            return Ok(one_column("index_name", names));
        }
        Err("Parser Error: syntax error at or near \"SELEC\"".to_string())
    }
}

fn opened() -> Database<MemoryEngine> {
    let mut db = Database::new();
    assert_eq!(init_database(&mut db, Ok(MemoryEngine::new())).ok(), Some(true));
    db
}

#[test]
fn operations_before_init_are_not_initialized() {
    let db: Database<MemoryEngine> = Database::new();
    assert!(!db.is_initialized());
    assert!(matches!(run_query(&db, "SELECT 1".to_string()), Err(DbError::NotInitialized)));
    assert!(matches!(
        import_parquet_file(&db, "a.parquet".to_string(), String::new()),
        Err(DbError::NotInitialized)
    ));
    assert!(matches!(get_all_tables(&db), Err(DbError::NotInitialized)));
    assert!(matches!(get_all_indices(&db), Err(DbError::NotInitialized)));
    assert!(matches!(
        create_table_index(&db, "t".to_string(), "c".to_string()),
        Err(DbError::NotInitialized)
    ));
    assert!(matches!(get_database_info(&db), Err(DbError::NotInitialized)));
    assert!(matches!(import_parquet(&db, "a.parquet"), Err(DbError::NotInitialized)));
    assert!(matches!(create_index(&db, "t", "c"), Err(DbError::NotInitialized)));
}

#[test]
fn failed_open_is_io_error_and_leaves_no_handle() {
    let mut db: Database<MemoryEngine> = Database::new();
    match init_database(&mut db, Err("IO Error: cannot open file".to_string())) {
        Err(DbError::Io(m)) => assert_eq!(m, "IO Error: cannot open file"),
        _ => panic!("expected an I/O error"),
    }
    assert!(!db.is_initialized());
}

#[test]
fn select_one_gives_one_cell() {
    let db = opened();
    let res = run_query(&db, "SELECT 1".to_string()).ok().unwrap();
    assert_eq!(res.column_names.len(), 1);
    assert_eq!(res.rows.len(), 1);
    assert_eq!(res.rows[0], vec!["1".to_string()]);
    assert_eq!(res.row_count, 1);
}

#[test]
fn bad_sql_is_sql_error_with_message() {
    let db = opened();
    match execute_query(&db, "SELEC 1") {
        Err(DbError::Sql(m)) => assert!(m.starts_with("Parser Error")),
        _ => panic!("expected an SQL error"),
    }
}

#[test]
fn rows_have_one_cell_per_column() {
    let raw = RawTable {
        column_names: vec!["a".to_string(), "b".to_string()],
        rows: vec![vec![Cell::Signed(1)], vec![Cell::Null, text("x"), Cell::Signed(9)], vec![]],
    };
    let res = marshal(raw, 7);
    assert_eq!(res.row_count, 3);
    assert_eq!(res.rows.len(), 3);
    for row in &res.rows {
        assert_eq!(row.len(), 2);
    }
    assert_eq!(res.rows[0], vec!["1".to_string(), "ERROR".to_string()]);
    assert_eq!(res.rows[1], vec!["NULL".to_string(), "x".to_string()]);
    assert_eq!(res.rows[2], vec!["ERROR".to_string(), "ERROR".to_string()]);
    assert_eq!(res.execution_time_micros, 7);
}

#[test]
fn empty_result_keeps_columns() {
    let res = marshal(RawTable { column_names: vec!["a".to_string()], rows: vec![] }, 0);
    assert_eq!(res.column_names, vec!["a".to_string()]);
    assert_eq!(res.row_count, 0);
}

#[test]
fn cell_policy() {
    assert_eq!(render_cell(&Cell::Null), "NULL");
    assert_eq!(render_cell(&Cell::Signed(-42)), "-42");
    assert_eq!(render_cell(&Cell::Signed(0)), "0");
    assert_eq!(render_cell(&Cell::Unsigned(18446744073709551615)), "18446744073709551615");
    assert_eq!(render_cell(&Cell::Real("2.5".to_string())), "2.5");
    assert_eq!(render_cell(&Cell::Boolean(true)), "true");
    assert_eq!(render_cell(&Cell::Blob(5)), "BLOB(5)");
    assert_eq!(render_cell(&Cell::Blob(0)), "BLOB(0)");
    assert_eq!(render_cell(&Cell::Unreadable), "ERROR");
    assert_eq!(render_cell(&Cell::Other), "ERROR");
    assert_eq!(render_cell(&text("héllo")), "héllo");
}

#[test]
fn invalid_utf8_is_replaced() {
    assert_eq!(render_cell(&Cell::Text(vec![b'a', 0xff, b'b'])), "a\u{FFFD}b");
}

#[test]
fn render_row_pads_to_width() {
    assert_eq!(render_row(&vec![Cell::Signed(3)], 2), vec!["3".to_string(), "ERROR".to_string()]);
}

#[test]
fn decimal_extremes() {
    assert_eq!(unsigned_text(u128::MAX), u128::MAX.to_string());
    assert_eq!(signed_text(i128::MIN), i128::MIN.to_string());
    assert_eq!(signed_text(1234567), "1234567");
}

#[test]
fn spaced_file_name_gives_underscored_table() {
    assert_eq!(import_table_name("sales report.parquet", ""), Some("sales_report".to_string()));
    assert_eq!(import_table_name("/data/a-1.parquet", ""), Some("a_1".to_string()));
    assert_eq!(import_table_name("/data/a-1.parquet", "chosen"), Some("chosen".to_string()));
    assert_eq!(import_table_name("", ""), None);
}

#[test]
fn safe_name_keeps_letters_digits_underscore() {
    assert_eq!(safe_table_name("é-x_9.z"), "é_x_9_z");
    assert_eq!(safe_table_name(""), "");
}

#[test]
fn import_creates_table_from_parquet() {
    let db = opened();
    assert_eq!(import_parquet(&db, "sales report.parquet").ok(), Some("Imported 3 rows into table sales_report".to_string()));
    let tables = get_all_tables(&db).ok().unwrap();
    assert_eq!(tables.len(), 1);
    assert_eq!(tables[0].name, "sales_report");
}

#[test]
fn import_with_explicit_name() {
    let db = opened();
    assert_eq!(import_parquet_file(&db, "x.parquet".to_string(), "sales".to_string()).ok(), Some(true));
    match import_file(&db, "y.parquet", "sales") {
        Err(DbError::NameCollision(m)) => assert!(m.contains("already exists")),
        _ => panic!("expected a collision"),
    }
}

#[test]
fn import_of_missing_file_is_io_error() {
    let db = opened();
    assert!(matches!(import_file(&db, "missing.parquet", ""), Err(DbError::Io(_))));
}

#[test]
fn import_without_file_name_is_invalid_path() {
    let db = opened();
    match import_file(&db, "", "") {
        Err(e) => {
            assert_eq!(e.message(), "Invalid file path");
            assert!(matches!(e, DbError::InvalidPath(p) if p.is_empty()));
        }
        Ok(_) => panic!("expected an invalid path"),
    }
    assert!(get_all_tables(&db).ok().unwrap().is_empty());
}

#[test]
fn reinit_replaces_the_connection() {
    let mut db = opened();
    assert_eq!(import_parquet_file(&db, "a.parquet".to_string(), String::new()).ok(), Some(true));
    assert_eq!(get_all_tables(&db).ok().unwrap().len(), 1);
    assert_eq!(init_database(&mut db, Ok(MemoryEngine::new())).ok(), Some(true));
    assert!(get_all_tables(&db).ok().unwrap().is_empty());
}

#[test]
fn empty_catalog_has_no_tables_or_indices() {
    let db = opened();
    assert!(get_all_tables(&db).ok().unwrap().is_empty());
    assert!(get_all_indices(&db).ok().unwrap().is_empty());
    assert_eq!(get_database_info(&db).ok().unwrap().table_count, 0);
}

#[test]
fn snapshot_from_listing() {
    let engine = MemoryEngine::new();
    assert_eq!(engine.run_batch("CREATE TABLE t AS SELECT * FROM read_parquet('t.parquet');"), Ok(()));
    assert_eq!(engine.run_batch("CREATE INDEX idx_t_id ON t (id);"), Ok(()));
    let empty = snapshot_from(&engine, &one_column("table_name", vec![])).ok().unwrap();
    assert_eq!(empty.table_count, 0);
    let info = snapshot_from(&engine, &one_column("table_name", vec![text("t")])).ok().unwrap();
    assert_eq!(info.table_count, 1);
    assert_eq!(info.tables[0].name, "t");
    assert_eq!(info.tables[0].row_count, 3);
    assert_eq!(info.tables[0].schema, "id INTEGER, label VARCHAR");
    assert_eq!(info.tables[0].indices, vec!["idx_t_id".to_string()]);
    assert!(matches!(
        snapshot_from(&engine, &one_column("table_name", vec![text("t"), text("gone")])),
        Err(DbError::Sql(_))
    ));
}

#[test]
fn table_info_from_lookups() {
    let counted = one_column("count_star()", vec![Cell::Signed(4)]);
    let columns = RawTable {
        column_names: vec!["cid".to_string(), "name".to_string(), "type".to_string()],
        rows: vec![
            vec![Cell::Signed(0), text("a"), text("INTEGER")],
            vec![Cell::Signed(1), text("b"), text("VARCHAR")],
        ],
    };
    let indexes = one_column("index_name", vec![text("idx_t_a")]);
    let t = table_info_from("t".to_string(), Ok(counted), Ok(columns.clone_table()), Ok(indexes.clone_table()))
        .ok()
        .unwrap();
    assert_eq!(t.name, "t");
    assert_eq!(t.row_count, 4);
    assert_eq!(t.schema, "a INTEGER, b VARCHAR");
    assert_eq!(t.indices, vec!["idx_t_a".to_string()]);
    let bad = one_column("count_star()", vec![Cell::Null]);
    assert!(matches!(
        table_info_from("t".to_string(), Ok(bad), Ok(columns.clone_table()), Ok(indexes.clone_table())),
        Err(DbError::Sql(_))
    ));
    match table_info_from(
        "t".to_string(),
        Err("Catalog Error: Table with name t does not exist!".to_string()),
        Ok(columns.clone_table()),
        Ok(indexes.clone_table()),
    ) {
        Err(DbError::Sql(m)) => assert!(m.starts_with("Catalog Error")),
        _ => panic!("a failed lookup fails the entry"),
    }
    assert!(matches!(
        table_info_from("t".to_string(), Ok(one_column("c", vec![Cell::Signed(1)])), Err("IO Error: x".to_string()), Ok(indexes)),
        Err(DbError::Io(_))
    ));
}

#[test]
fn index_name_and_second_creation_collides() {
    assert_eq!(index_name("t", "c"), "idx_t_c");
    let db = opened();
    assert_eq!(create_index(&db, "t", "c").ok(), Some("Created index idx_t_c on t.c".to_string()));
    assert!(matches!(create_table_index(&db, "t".to_string(), "c".to_string()), Err(DbError::NameCollision(_))));
}

#[test]
fn tables_after_one_import() {
    let db = opened();
    assert_eq!(import_parquet_file(&db, "/tmp/sales report.parquet".to_string(), String::new()).ok(), Some(true));
    assert_eq!(create_table_index(&db, "sales_report".to_string(), "id".to_string()).ok(), Some(true));
    let info = get_database_info(&db).ok().unwrap();
    assert_eq!(info.table_count, 1);
    assert_eq!(info.row_count("sales_report"), Some(3));
    assert_eq!(info.row_count("other"), None);
    assert_eq!(info.tables[0].schema, "id INTEGER, label VARCHAR");
    assert_eq!(info.tables[0].indices, vec!["idx_sales_report_id".to_string()]);
    let indices = get_all_indices(&db).ok().unwrap();
    assert_eq!(indices.len(), 1);
    assert_eq!(indices[0].table_name, "sales_report");
    assert_eq!(indices[0].index_name, "idx_sales_report_id");
}

#[test]
fn record_replaces_same_name() {
    let mut info = DatabaseInfo::new();
    let t = |n: &str, c: i64| TableInfo { name: n.to_string(), row_count: c, schema: String::new(), indices: vec![] };
    info.record(t("a", 1));
    info.record(t("b", 2));
    info.record(t("a", 5));
    assert_eq!(info.table_count, 2);
    assert_eq!(info.row_count("a"), Some(5));
    assert_eq!(info.row_count("b"), Some(2));
    assert_eq!(info.tables[0].name, "a");
}

#[test]
fn index_list_flattens_in_table_order() {
    let mut info = DatabaseInfo::new();
    info.record(TableInfo { name: "a".to_string(), row_count: 0, schema: String::new(), indices: vec!["i1".to_string(), "i2".to_string()] });
    info.record(TableInfo { name: "b".to_string(), row_count: 0, schema: String::new(), indices: vec![] });
    info.record(TableInfo { name: "c".to_string(), row_count: 0, schema: String::new(), indices: vec!["i3".to_string()] });
    let list = index_list(&info);
    let pairs: Vec<(String, String)> = list.into_iter().map(|x| (x.table_name, x.index_name)).collect();
    assert_eq!(pairs, vec![
        ("a".to_string(), "i1".to_string()),
        ("a".to_string(), "i2".to_string()),
        ("c".to_string(), "i3".to_string()),
    ]);
}

#[test]
fn schema_of_empty_listing_is_empty() {
    assert_eq!(schema_of(&RawTable { column_names: vec![], rows: vec![] }), "");
}

#[test]
fn count_reads_first_signed_cell() {
    assert_eq!(count_of(&one_column("c", vec![Cell::Signed(12)])), Some(12));
    assert_eq!(count_of(&one_column("c", vec![text("12")])), None);
    assert_eq!(count_of(&one_column("c", vec![])), None);
    assert_eq!(count_of(&one_column("c", vec![Cell::Signed(i128::MAX)])), None);
}

#[test]
fn failures_are_sorted_by_message() {
    assert!(matches!(classify_failure("Catalog Error: Index with name \"x\" already exists!".to_string()), DbError::NameCollision(_)));
    assert!(matches!(classify_failure("IO Error: No files found".to_string()), DbError::Io(_)));
    assert!(matches!(classify_failure("Binder Error: column not found".to_string()), DbError::Sql(_)));
}

#[test]
fn statement_text() {
    assert_eq!(create_table_sql("t", "f.parquet"), "CREATE TABLE t AS SELECT * FROM read_parquet('f.parquet');");
    assert_eq!(count_sql("t"), "SELECT COUNT(*) FROM t");
    assert_eq!(create_index_sql("idx_t_c", "t", "c"), "CREATE INDEX idx_t_c ON t (c);");
    assert_eq!(table_info_sql("t"), "PRAGMA table_info('t')");
    assert_eq!(index_list_sql("t"), "SELECT index_name FROM duckdb_indexes() WHERE table_name = 't'");
}

#[test]
fn text_helpers() {
    assert!(text_contains("abc already exists!", "already exists"));
    assert!(!text_contains("abc", "abcd"));
    assert!(text_contains("abc", ""));
    assert!(same_text("é", "é"));
    assert!(!same_text("a", "ab"));
    assert_eq!(join_text(&vec!["a".to_string(), "b".to_string(), "c".to_string()], ", "), "a, b, c");
    assert_eq!(join_text(&vec![], ", "), "");
}
