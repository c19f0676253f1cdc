//! The connection manager, the query marshaler, the catalog introspector,
//! the bulk loader and the index creator.
use crate::cell::{Cell, column_text, render_cell, render_row};
use crate::engine::{Engine, RawTable};
use crate::naming::{
    count_sql, create_index_sql, create_table_sql, import_table, import_table_name,
    index_list_sql, index_name, index_name_spec, table_info_sql,
};
use crate::platform::{clock_now, micros_since};
use crate::text::{contains, join, join_text, same_text, signed_decimal, signed_text, text_contains};
use vstd::prelude::*;

verus! {

/// Why an operation failed.
pub enum DbError {
    /// No database has been opened yet.
    NotInitialized,
    /// The lock around the database could not be taken.
    LockUnavailable,
    /// The engine refused or failed a statement.
    Sql(String),
    /// The engine could not open or read a file.
    Io(String),
    /// The object to be created exists already.
    NameCollision(String),
    /// A file path with no usable file name.
    InvalidPath(String),
}

/// `e` is the error that the engine message `msg` reports: a collision when
/// it says that something already exists, an I/O error when it says so, else
/// an SQL error; each keeps the message.
pub open spec fn failure_of(msg: Seq<char>, e: DbError) -> bool {
    if contains(msg, "already exists"@) {
        e matches DbError::NameCollision(s) && s@ == msg
    } else if contains(msg, "IO Error"@) {
        e matches DbError::Io(s) && s@ == msg
    } else {
        e matches DbError::Sql(s) && s@ == msg
    }
}

/// An error that an engine message stands for: a collision, an I/O error or
/// an SQL error, sorted by what its message says.
pub open spec fn is_engine_failure(e: DbError) -> bool {
    &&& (e is NameCollision || e is Io || e is Sql)
    &&& failure_of(error_text(e), e)
}

/// The message that an error shows to a caller.
pub open spec fn error_text(e: DbError) -> Seq<char> {
    match e {
        DbError::NotInitialized => "Database not initialized"@,
        DbError::LockUnavailable => "Failed to lock database connection"@,
        DbError::Sql(m) => m@,
        DbError::Io(m) => m@,
        DbError::NameCollision(m) => m@,
        DbError::InvalidPath(_) => "Invalid file path"@,
    }
}

impl DbError {
    /// The message that this error shows to a caller.
    pub fn message(&self) -> (r: String)
        ensures
            r@ == error_text(*self),
    {
        match self {
            DbError::NotInitialized => String::from_str("Database not initialized"),
            DbError::LockUnavailable => String::from_str("Failed to lock database connection"),
            DbError::Sql(m) => m.clone(),
            DbError::Io(m) => m.clone(),
            DbError::NameCollision(m) => m.clone(),
            DbError::InvalidPath(_) => String::from_str("Invalid file path"),
        }
    }
}

/// Sorts an engine message into the error it reports.
pub fn classify_failure(msg: String) -> (r: DbError)
    ensures
        failure_of(msg@, r),
        is_engine_failure(r),
{
    if text_contains(msg.as_str(), "already exists") {
        DbError::NameCollision(msg)
    } else if text_contains(msg.as_str(), "IO Error") {
        DbError::Io(msg)
    } else {
        DbError::Sql(msg)
    }
}

/// The one handle on the embedded database, absent until it is opened.
pub struct Database<E> {
    engine: Option<E>,
}

impl<E: Engine> Database<E> {
    /// Whether a connection is installed.
    pub closed spec fn is_open(&self) -> bool {
        self.engine is Some
    }

    /// The installed connection, if any.
    pub closed spec fn installed(&self) -> Option<E> {
        self.engine
    }

    /// A handle with no connection yet.
    pub fn new() -> (r: Self)
        ensures
            !r.is_open(),
    {
        Database { engine: None }
    }

    /// Whether a connection is installed.
    pub fn is_initialized(&self) -> (r: bool)
        ensures
            r == self.is_open(),
    {
        self.engine.is_some()
    }

    /// Installs a connection in place of any earlier one, which is dropped.
    pub fn install(&mut self, engine: E)
        ensures
            final(self).is_open(),
            final(self).installed() == Some(engine),
    {
        self.engine = Some(engine);
    }

    fn connection(&self) -> (r: Result<&E, DbError>)
        ensures
            self.is_open() <==> r is Ok,
            r matches Err(e) ==> e is NotInitialized,
    {
        match &self.engine {
            Some(e) => Ok(e),
            None => Err(DbError::NotInitialized),
        }
    }
}

/// Installs the connection that opening the database produced, or reports
/// the failure to open it as an I/O error and keeps the earlier state.
pub fn init_database<E: Engine>(db: &mut Database<E>, opened: Result<E, String>) -> (r: Result<
    String,
    DbError,
>)
    ensures
        opened is Ok <==> r is Ok,
        r is Ok ==> final(db).is_open() && r->Ok_0@ == "DuckDB initialized successfully"@,
        opened matches Ok(e) ==> final(db).installed() == Some(e),
        opened matches Err(m) ==> (r matches Err(DbError::Io(s)) && s@ == m@) && final(db).is_open()
            == old(db).is_open() && final(db).installed() == old(db).installed(),
{
    match opened {
        Ok(engine) => {
            db.install(engine);
            Ok(String::from_str("DuckDB initialized successfully"))
        },
        Err(m) => Err(DbError::Io(m)),
    }
}

/// The result of a query: column names, every cell as text, and timing.
pub struct QueryResult {
    pub column_names: Vec<String>,
    pub rows: Vec<Vec<String>>,
    /// Wall-clock time of running the query and reading its rows.
    pub execution_time_micros: u128,
    pub row_count: usize,
}

impl QueryResult {
    /// The row count matches the rows, and each row has one cell per column.
    pub open spec fn wf(&self) -> bool {
        &&& self.row_count == self.rows@.len()
        &&& forall|i: int|
            0 <= i < self.rows@.len() ==> (#[trigger] self.rows@[i])@.len()
                == self.column_names@.len()
    }
}

/// `res` holds `raw` rendered: the same columns, and each row's cells as text
/// in order, one per column.
pub open spec fn marshaled(raw: RawTable, res: QueryResult) -> bool {
    &&& res.column_names@ == raw.column_names@
    &&& res.rows@.len() == raw.rows@.len()
    &&& res.row_count == raw.rows@.len()
    &&& forall|i: int|
        0 <= i < res.rows@.len() ==> (#[trigger] res.rows@[i])@.len() == raw.column_names@.len()
    &&& forall|i: int, j: int|
        0 <= i < res.rows@.len() && 0 <= j < raw.column_names@.len() ==> (
        #[trigger] res.rows@[i]@[j])@ == column_text(raw.rows@[i]@, j)
}

/// Every marshaled result counts its rows and has one cell per column in
/// each row.
pub proof fn lemma_marshaled_is_well_formed(raw: RawTable, res: QueryResult)
    requires
        marshaled(raw, res),
    ensures
        res.wf(),
{
}

/// Turns an engine result into text: one cell per column in each row, the
/// rows in the engine's order.
pub fn marshal(raw: RawTable, elapsed_micros: u128) -> (res: QueryResult)
    ensures
        marshaled(raw, res),
        res.wf(),
        res.execution_time_micros == elapsed_micros,
{
    let width = raw.column_names.len();
    let mut rows: Vec<Vec<String>> = Vec::new();
    let mut i: usize = 0;
    while i < raw.rows.len()
        invariant
            i <= raw.rows@.len(),
            width == raw.column_names@.len(),
            rows@.len() == i,
            forall|k: int| 0 <= k < i ==> (#[trigger] rows@[k])@.len() == width,
            forall|k: int, j: int|
                0 <= k < i && 0 <= j < width ==> (#[trigger] rows@[k]@[j])@ == column_text(
                    raw.rows@[k]@,
                    j,
                ),
        decreases raw.rows@.len() - i,
    {
        let row = render_row(&raw.rows[i], width);
        rows.push(row);
        i = i + 1;
    }
    let row_count = rows.len();
    QueryResult {
        column_names: raw.column_names,
        rows,
        execution_time_micros: elapsed_micros,
        row_count,
    }
}

/// Runs `query` and returns its whole result as text, timed from the start of
/// the run to the last row. Fails with `NotInitialized` before the database
/// is open, else only with the engine's own failure.
pub fn execute_query<E: Engine>(db: &Database<E>, query: &str) -> (r: Result<QueryResult, DbError>)
    ensures
        !db.is_open() ==> r matches Err(DbError::NotInitialized),
        db.is_open() ==> match r {
            Ok(res) => res.wf() && exists|raw: RawTable| marshaled(raw, res),
            Err(e) => is_engine_failure(e),
        },
{
    let engine = match db.connection() {
        Ok(e) => e,
        Err(e) => return Err(e),
    };
    let start = clock_now();
    match engine.query(query) {
        Ok(raw) => {
            let ghost g = raw;
            let mut res = marshal(raw, 0);
            res.execution_time_micros = micros_since(&start);
            assert(marshaled(g, res));
            Ok(res)
        },
        Err(m) => Err(classify_failure(m)),
    }
}

/// What one table holds: its name, row count, schema text and index names.
pub struct TableInfo {
    pub name: String,
    pub row_count: i64,
    /// "name type" of each column, in order, joined by ", ".
    pub schema: String,
    pub indices: Vec<String>,
}

/// One index and the table it belongs to.
pub struct IndexInfo {
    pub table_name: String,
    pub index_name: String,
}

/// A snapshot of the catalog: every table with what it holds.
pub struct DatabaseInfo {
    pub table_count: usize,
    pub tables: Vec<TableInfo>,
}

/// The table of that name, if the snapshot has one.
pub open spec fn has_table(tables: Seq<TableInfo>, name: Seq<char>) -> bool {
    exists|k: int| 0 <= k < tables.len() && (#[trigger] tables[k]).name@ == name
}

impl DatabaseInfo {
    /// Table names are unique and the count matches the tables.
    pub open spec fn wf(&self) -> bool {
        &&& self.table_count == self.tables@.len()
        &&& forall|a: int, b: int|
            0 <= a < b < self.tables@.len() ==> (#[trigger] self.tables@[a]).name@
                != (#[trigger] self.tables@[b]).name@
    }

    /// An empty snapshot.
    pub fn new() -> (r: DatabaseInfo)
        ensures
            r.wf(),
            r.tables@.len() == 0,
    {
        DatabaseInfo { table_count: 0, tables: Vec::new() }
    }

    /// Records a table: it replaces the entry of the same name, if any, and
    /// is added at the end otherwise. Every other entry stays as it was.
    pub fn record(&mut self, t: TableInfo)
        requires
            old(self).wf(),
        ensures
            final(self).wf(),
            has_table(old(self).tables@, t.name@) ==> final(self).tables@.len()
                == old(self).tables@.len(),
            !has_table(old(self).tables@, t.name@) ==> final(self).tables@ == old(self).tables@.push(t),
            has_table(final(self).tables@, t.name@),
            forall|k: int|
                0 <= k < old(self).tables@.len() && old(self).tables@[k].name@ != t.name@
                    ==> final(self).tables@[k] == old(self).tables@[k],
            forall|k: int|
                0 <= k < final(self).tables@.len() && final(self).tables@[k].name@ == t.name@
                    ==> final(self).tables@[k] == t,
    {
        let mut k: usize = 0;
        while k < self.tables.len()
            invariant
                k <= self.tables@.len(),
                *self == *old(self),
                self.wf(),
                forall|m: int| 0 <= m < k ==> (#[trigger] self.tables@[m]).name@ != t.name@,
            decreases self.tables@.len() - k,
        {
            if same_text(self.tables[k].name.as_str(), t.name.as_str()) {
                let ghost before = self.tables@;
                self.tables.set(k, t);
                assert(self.tables@[k as int] == t);
                assert forall|q: int| 0 <= q < self.tables@.len() implies (#[trigger] self.tables@[q]).name@
                    == before[q].name@ by {}
                assert forall|a: int, b: int| 0 <= a < b < self.tables@.len() implies (
                #[trigger] self.tables@[a]).name@ != (#[trigger] self.tables@[b]).name@ by {
                    assert(before[a].name@ != before[b].name@);
                }
                assert(has_table(self.tables@, t.name@));
                assert forall|m: int|
                    0 <= m < self.tables@.len() && self.tables@[m].name@ == t.name@ implies self.tables@[m]
                    == t by {
                    if m < k {
                        assert(before[m].name@ != before[k as int].name@);
                    } else if m > k {
                        assert(before[k as int].name@ != before[m].name@);
                    }
                }
                return;
            }
            k = k + 1;
        }
        self.tables.push(t);
        self.table_count = self.tables.len();
        assert(self.tables@[self.tables@.len() - 1].name@ == t.name@);
    }

    /// The row count of the named table.
    pub fn row_count(&self, name: &str) -> (r: Option<i64>)
        ensures
            r matches Some(n) ==> exists|k: int|
                0 <= k < self.tables@.len() && (#[trigger] self.tables@[k]).name@ == name@
                    && self.tables@[k].row_count == n,
            r is None ==> !has_table(self.tables@, name@),
    {
        let mut k: usize = 0;
        while k < self.tables.len()
            invariant
                k <= self.tables@.len(),
                forall|m: int| 0 <= m < k ==> (#[trigger] self.tables@[m]).name@ != name@,
            decreases self.tables@.len() - k,
        {
            if same_text(self.tables[k].name.as_str(), name) {
                return Some(self.tables[k].row_count);
            }
            k = k + 1;
        }
        None
    }
}

/// The texts of column `j` of every row of a result.
pub fn column_texts(raw: &RawTable, j: usize) -> (r: Vec<String>)
    ensures
        r@.len() == raw.rows@.len(),
        forall|i: int| 0 <= i < r@.len() ==> (#[trigger] r@[i])@ == column_text(raw.rows@[i]@, j as int),
{
    let mut out: Vec<String> = Vec::new();
    let mut i: usize = 0;
    while i < raw.rows.len()
        invariant
            i <= raw.rows@.len(),
            out@.len() == i,
            forall|k: int| 0 <= k < i ==> (#[trigger] out@[k])@ == column_text(raw.rows@[k]@, j as int),
        decreases raw.rows@.len() - i,
    {
        let row = &raw.rows[i];
        let text = if j < row.len() {
            render_cell(&row[j])
        } else {
            String::from_str("ERROR")
        };
        out.push(text);
        i = i + 1;
    }
    out
}

/// The schema entry of a column-listing row: its name (column 1), a space,
/// and its type (column 2).
pub open spec fn schema_entry(row: Seq<Cell>) -> Seq<char> {
    column_text(row, 1) + " "@ + column_text(row, 2)
}

/// The schema text of a column listing: its entries joined by ", ".
pub open spec fn schema_text(raw: RawTable) -> Seq<char> {
    join(raw.rows@.map_values(|row: Vec<Cell>| schema_entry(row@)), ", "@)
}

/// The schema text of a table from the listing of its columns.
pub fn schema_of(raw: &RawTable) -> (r: String)
    ensures
        r@ == schema_text(*raw),
{
    let names = column_texts(raw, 1);
    let types = column_texts(raw, 2);
    let mut entries: Vec<String> = Vec::new();
    let mut i: usize = 0;
    while i < names.len()
        invariant
            i <= names@.len(),
            names@.len() == raw.rows@.len(),
            types@.len() == raw.rows@.len(),
            forall|k: int| 0 <= k < names@.len() ==> (#[trigger] names@[k])@ == column_text(raw.rows@[k]@, 1),
            forall|k: int| 0 <= k < types@.len() ==> (#[trigger] types@[k])@ == column_text(raw.rows@[k]@, 2),
            entries@.len() == i,
            forall|k: int| 0 <= k < i ==> (#[trigger] entries@[k])@ == schema_entry(raw.rows@[k]@),
        decreases names@.len() - i,
    {
        let mut entry = names[i].clone();
        entry.append(" ");
        entry.append(types[i].as_str());
        entries.push(entry);
        i = i + 1;
    }
    let r = join_text(&entries, ", ");
    assert(entries@.map_values(|t: String| t@) =~= raw.rows@.map_values(
        |row: Vec<Cell>| schema_entry(row@),
    ));
    r
}

/// The count a `COUNT(*)` result holds: its first cell, when that is a
/// signed integer that fits `i64`.
pub open spec fn count_in(raw: RawTable) -> Option<i64> {
    if raw.rows@.len() > 0 && raw.rows@[0]@.len() > 0 {
        match raw.rows@[0]@[0] {
            Cell::Signed(n) => if i64::MIN <= n <= i64::MAX {
                Some(n as i64)
            } else {
                None
            },
            _ => None,
        }
    } else {
        None
    }
}

/// Reads the count out of a `COUNT(*)` result.
pub fn count_of(raw: &RawTable) -> (r: Option<i64>)
    ensures
        r == count_in(*raw),
{
    if raw.rows.len() > 0 && raw.rows[0].len() > 0 {
        match &raw.rows[0][0] {
            Cell::Signed(n) => if i64::MIN as i128 <= *n && *n <= i64::MAX as i128 {
                Some(*n as i64)
            } else {
                None
            },
            _ => None,
        }
    } else {
        None
    }
}

fn unreadable_count() -> (r: DbError)
    ensures
        is_engine_failure(r),
{
    classify_failure(String::from_str("row count is not an integer"))
}

/// Reads the row count of `table`.
fn table_row_count<E: Engine>(engine: &E, table: &str) -> (r: Result<i64, DbError>)
    ensures
        r matches Err(e) ==> is_engine_failure(e),
{
    let counted = match engine.query(count_sql(table).as_str()) {
        Ok(raw) => raw,
        Err(m) => return Err(classify_failure(m)),
    };
    match count_of(&counted) {
        Some(n) => Ok(n),
        None => Err(unreadable_count()),
    }
}

/// The texts of column `j` of every row of a result.
pub open spec fn column_of(raw: RawTable, j: int) -> Seq<Seq<char>> {
    raw.rows@.map_values(|row: Vec<Cell>| column_text(row@, j))
}

/// `t` describes the table `name` from the answers to its three lookups:
/// the count in the `COUNT(*)` result, the schema text of the column
/// listing, and the names in column 0 of the index listing.
pub open spec fn table_info_shaped(
    name: Seq<char>,
    counted: RawTable,
    columns: RawTable,
    indexes: RawTable,
    t: TableInfo,
) -> bool {
    &&& t.name@ == name
    &&& count_in(counted) == Some(t.row_count)
    &&& t.schema@ == schema_text(columns)
    &&& t.indices@.map_values(|s: String| s@) == column_of(indexes, 0)
}

/// `t` was read from the catalog: some answers to its lookups give it.
pub open spec fn from_catalog(t: TableInfo) -> bool {
    exists|counted: RawTable, columns: RawTable, indexes: RawTable|
        table_info_shaped(t.name@, counted, columns, indexes, t)
}

/// Builds the description of table `name` from the answers to its three
/// lookups: a failed lookup fails it, and so does a count that is not a
/// readable integer.
pub fn table_info_from(
    name: String,
    counted: Result<RawTable, String>,
    columns: Result<RawTable, String>,
    indexes: Result<RawTable, String>,
) -> (r: Result<TableInfo, DbError>)
    ensures
        r is Ok <==> (counted is Ok && columns is Ok && indexes is Ok && count_in(counted->Ok_0) is Some),
        counted matches Err(m) ==> (r matches Err(e) && failure_of(m@, e)),
        r matches Err(e) ==> is_engine_failure(e),
        r matches Ok(t) ==> table_info_shaped(name@, counted->Ok_0, columns->Ok_0, indexes->Ok_0, t),
{
    let counted = match counted {
        Ok(raw) => raw,
        Err(m) => return Err(classify_failure(m)),
    };
    let columns = match columns {
        Ok(raw) => raw,
        Err(m) => return Err(classify_failure(m)),
    };
    let indexes = match indexes {
        Ok(raw) => raw,
        Err(m) => return Err(classify_failure(m)),
    };
    let count = match count_of(&counted) {
        Some(n) => n,
        None => return Err(unreadable_count()),
    };
    let indices = column_texts(&indexes, 0);
    assert(indices@.map_values(|s: String| s@) =~= column_of(indexes, 0));
    Ok(TableInfo { name, row_count: count, schema: schema_of(&columns), indices })
}

/// Reads one table's row count, schema and index names.
fn table_info<E: Engine>(engine: &E, name: String) -> (r: Result<TableInfo, DbError>)
    ensures
        r matches Ok(t) ==> t.name@ == name@ && from_catalog(t),
        r matches Err(e) ==> is_engine_failure(e),
{
    let counted = engine.query(count_sql(name.as_str()).as_str());
    let columns = engine.query(table_info_sql(name.as_str()).as_str());
    let indexes = engine.query(index_list_sql(name.as_str()).as_str());
    let ghost answers = (counted, columns, indexes);
    let r = table_info_from(name, counted, columns, indexes);
    proof {
        if r is Ok {
            let t = r->Ok_0;
            assert(table_info_shaped(t.name@, answers.0->Ok_0, answers.1->Ok_0, answers.2->Ok_0, t));
        }
    }
    r
}

/// The names of a snapshot's tables, in order.
pub open spec fn table_names(tables: Seq<TableInfo>) -> Seq<Seq<char>> {
    tables.map_values(|t: TableInfo| t.name@)
}

/// `tables` is the snapshot read for the listed table names: each entry was
/// read from the catalog for a listed name, every listed name has an entry,
/// and when the listing repeats no name the entries follow it one for one.
pub open spec fn snapshot_of(listing: Seq<Seq<char>>, tables: Seq<TableInfo>) -> bool {
    &&& forall|k: int|
        0 <= k < tables.len() ==> from_catalog(#[trigger] tables[k]) && listing.contains(
            tables[k].name@,
        )
    &&& forall|i: int| 0 <= i < listing.len() ==> has_table(tables, #[trigger] listing[i])
    &&& listing.no_duplicates() ==> table_names(tables) == listing
}

/// Reads the catalog: the tables in catalog order, each with its row count,
/// schema and indexes. Any failing lookup fails the whole snapshot.
pub fn get_database_info<E: Engine>(db: &Database<E>) -> (r: Result<DatabaseInfo, DbError>)
    ensures
        !db.is_open() ==> r matches Err(DbError::NotInitialized),
        db.is_open() ==> match r {
            Ok(info) => info.wf() && exists|listed: RawTable|
                snapshot_of(column_of(listed, 0), info.tables@),
            Err(e) => is_engine_failure(e),
        },
{
    let engine = match db.connection() {
        Ok(e) => e,
        Err(e) => return Err(e),
    };
    let listed = match engine.query("SELECT table_name FROM duckdb_tables()") {
        Ok(raw) => raw,
        Err(m) => return Err(classify_failure(m)),
    };
    snapshot_from(engine, &listed)
}

/// Reads, for each table name in column 0 of `listed`, its row count, schema
/// and indexes, and gathers them in listing order. An empty listing gives an
/// empty snapshot; any failing lookup fails the whole snapshot.
pub fn snapshot_from<E: Engine>(engine: &E, listed: &RawTable) -> (r: Result<DatabaseInfo, DbError>)
    ensures
        listed.rows@.len() == 0 ==> (r matches Ok(info) && info.tables@.len() == 0),
        r matches Ok(info) ==> info.wf() && snapshot_of(column_of(*listed, 0), info.tables@),
        r matches Err(e) ==> is_engine_failure(e),
{
    let names = column_texts(listed, 0);
    let ghost lv = column_of(*listed, 0);
    assert(names@.map_values(|s: String| s@) =~= lv);
    let mut info = DatabaseInfo::new();
    assert(table_names(info.tables@) =~= lv.subrange(0, 0));
    let mut i: usize = 0;
    while i < names.len()
        invariant
            i <= names@.len(),
            names@.len() == lv.len(),
            forall|q: int| 0 <= q < lv.len() ==> (#[trigger] names@[q])@ == lv[q],
            info.wf(),
            lv == column_of(*listed, 0),
            snapshot_of(lv.subrange(0, i as int), info.tables@),
        decreases names@.len() - i,
    {
        let ghost old_tables = info.tables@;
        let ghost pre = lv.subrange(0, i as int);
        let ghost post = lv.subrange(0, i as int + 1);
        let t = match table_info(engine, names[i].clone()) {
            Ok(t) => t,
            Err(e) => return Err(e),
        };
        let ghost tv = t;
        info.record(t);
        proof {
            assert(tv.name@ == lv[i as int]);
            assert(post == pre.push(lv[i as int]));
            assert forall|k: int| 0 <= k < info.tables@.len() implies from_catalog(
                #[trigger] info.tables@[k],
            ) && post.contains(info.tables@[k].name@) by {
                if info.tables@[k].name@ == tv.name@ {
                    assert(post[i as int] == tv.name@);
                } else {
                    assert(info.tables@[k] == old_tables[k]);
                    assert(from_catalog(old_tables[k]) && pre.contains(old_tables[k].name@));
                    let w = choose|w: int| 0 <= w < pre.len() && pre[w] == old_tables[k].name@;
                    assert(post[w] == pre[w]);
                }
            }
            assert forall|q: int| 0 <= q < post.len() implies has_table(
                info.tables@,
                #[trigger] post[q],
            ) by {
                if post[q] != tv.name@ {
                    assert(post[q] == pre[q]);
                    assert(has_table(old_tables, pre[q]));
                    let k = choose|k: int|
                        0 <= k < old_tables.len() && (#[trigger] old_tables[k]).name@ == pre[q];
                    assert(info.tables@[k] == old_tables[k]);
                }
            }
            if post.no_duplicates() {
                assert(pre.no_duplicates()) by {
                    assert forall|x: int, y: int| 0 <= x < pre.len() && 0 <= y < pre.len() && x != y
                        implies pre[x] != pre[y] by {
                        assert(post[x] == pre[x] && post[y] == pre[y]);
                    }
                }
                assert(table_names(old_tables) == pre);
                if has_table(old_tables, tv.name@) {
                    let k = choose|k: int|
                        0 <= k < old_tables.len() && (#[trigger] old_tables[k]).name@ == tv.name@;
                    assert(table_names(old_tables)[k] == pre[k]);
                    assert(post[k] == post[i as int]);
                    assert(false);
                }
                assert(info.tables@ == old_tables.push(tv));
                assert(table_names(info.tables@) =~= post);
            }
        }
        i = i + 1;
    }
    assert(lv.subrange(0, i as int) =~= lv);
    Ok(info)
}

/// Every index of a snapshot with its table, table by table.
pub open spec fn index_entries(tables: Seq<TableInfo>) -> Seq<(Seq<char>, Seq<char>)>
    decreases tables.len(),
{
    if tables.len() == 0 {
        Seq::empty()
    } else {
        index_entries(tables.drop_last()) + tables.last().indices@.map_values(
            |s: String| (tables.last().name@, s@),
        )
    }
}

pub open spec fn index_view(x: IndexInfo) -> (Seq<char>, Seq<char>) {
    (x.table_name@, x.index_name@)
}

/// Lists every index of a snapshot with its table, table by table.
pub fn index_list(info: &DatabaseInfo) -> (r: Vec<IndexInfo>)
    ensures
        r@.map_values(|x: IndexInfo| index_view(x)) == index_entries(info.tables@),
{
    let mut out: Vec<IndexInfo> = Vec::new();
    let mut i: usize = 0;
    while i < info.tables.len()
        invariant
            i <= info.tables@.len(),
            out@.map_values(|x: IndexInfo| index_view(x)) == index_entries(
                info.tables@.subrange(0, i as int),
            ),
        decreases info.tables@.len() - i,
    {
        let t = &info.tables[i];
        let ghost base = out@.map_values(|x: IndexInfo| index_view(x));
        let mut j: usize = 0;
        while j < t.indices.len()
            invariant
                j <= t.indices@.len(),
                out@.map_values(|x: IndexInfo| index_view(x)) == base + t.indices@.subrange(
                    0,
                    j as int,
                ).map_values(|s: String| (t.name@, s@)),
            decreases t.indices@.len() - j,
        {
            let ghost prev = out@;
            let entry = IndexInfo { table_name: t.name.clone(), index_name: t.indices[j].clone() };
            assert(index_view(entry) == (t.name@, t.indices@[j as int]@));
            out.push(entry);
            assert(out@.map_values(|x: IndexInfo| index_view(x)) =~= prev.map_values(
                |x: IndexInfo| index_view(x),
            ).push(index_view(entry)));
            assert(t.indices@.subrange(0, j as int + 1).map_values(|s: String| (t.name@, s@))
                =~= t.indices@.subrange(0, j as int).map_values(|s: String| (t.name@, s@)).push(
                (t.name@, t.indices@[j as int]@),
            ));
            assert(out@.map_values(|x: IndexInfo| index_view(x)) =~= base + t.indices@.subrange(
                0,
                j as int + 1,
            ).map_values(|s: String| (t.name@, s@)));
            j = j + 1;
        }
        assert(t.indices@.subrange(0, j as int) =~= t.indices@);
        assert(info.tables@.subrange(0, i as int + 1).drop_last() =~= info.tables@.subrange(
            0,
            i as int,
        ));
        i = i + 1;
    }
    assert(info.tables@.subrange(0, i as int) =~= info.tables@);
    out
}

/// The message of a finished import.
pub open spec fn import_message(rows: int, table: Seq<char>) -> Seq<char> {
    "Imported "@ + signed_decimal(rows) + " rows into table "@ + table
}

/// Creates a table from the Parquet file at `file_path` and counts its rows;
/// the table's name and its row count. The table is `table_name`, or when
/// that is empty the file's stem with every character that is neither
/// alphanumeric nor `_` replaced by `_`.
pub fn import_file<E: Engine>(db: &Database<E>, file_path: &str, table_name: &str) -> (r: Result<
    (String, i64),
    DbError,
>)
    ensures
        !db.is_open() ==> r matches Err(DbError::NotInitialized),
        db.is_open() && import_table(file_path@, table_name@) is None ==> (r matches Err(
            DbError::InvalidPath(p),
        ) && p@ == file_path@),
        db.is_open() && import_table(file_path@, table_name@) is Some ==> match r {
            Ok((t, n)) => import_table(file_path@, table_name@) == Some(t@),
            Err(e) => is_engine_failure(e),
        },
{
    let engine = match db.connection() {
        Ok(e) => e,
        Err(e) => return Err(e),
    };
    let table = match import_table_name(file_path, table_name) {
        Some(t) => t,
        None => return Err(DbError::InvalidPath(String::from_str(file_path))),
    };
    match engine.run_batch(create_table_sql(table.as_str(), file_path).as_str()) {
        Ok(()) => {},
        Err(m) => return Err(classify_failure(m)),
    }
    match table_row_count(engine, table.as_str()) {
        Ok(n) => Ok((table, n)),
        Err(e) => Err(e),
    }
}

/// Imports the Parquet file at `file_path` into a table named after the
/// file's stem, and reports how many rows it holds.
pub fn import_parquet<E: Engine>(db: &Database<E>, file_path: &str) -> (r: Result<String, DbError>)
    ensures
        !db.is_open() ==> r matches Err(DbError::NotInitialized),
        db.is_open() && import_table(file_path@, ""@) is None ==> (r matches Err(
            DbError::InvalidPath(p),
        ) && p@ == file_path@),
        db.is_open() && import_table(file_path@, ""@) is Some ==> match r {
            Ok(msg) => exists|n: i64|
                msg@ == import_message(n as int, import_table(file_path@, ""@)->0),
            Err(e) => is_engine_failure(e),
        },
{
    proof {
        reveal_strlit("");
    }
    match import_file(db, file_path, "") {
        Ok((table, n)) => {
            let mut msg = String::from_str("Imported ");
            let count = signed_text(n as i128);
            msg.append(count.as_str());
            msg.append(" rows into table ");
            msg.append(table.as_str());
            assert(msg@ == import_message(n as int, table@));
            assert(msg@ == import_message(n as int, import_table(file_path@, ""@)->0));
            Ok(msg)
        },
        Err(e) => Err(e),
    }
}

/// The message of a created index.
pub open spec fn index_message(table: Seq<char>, column: Seq<char>) -> Seq<char> {
    "Created index "@ + index_name_spec(table, column) + " on "@ + table + "."@ + column
}

/// Creates the index `idx_<table>_<column>` on `table`.`column`. A second
/// index of that name is refused by the engine as a collision.
pub fn create_index<E: Engine>(db: &Database<E>, table_name: &str, column_name: &str) -> (r: Result<
    String,
    DbError,
>)
    ensures
        !db.is_open() ==> r matches Err(DbError::NotInitialized),
        db.is_open() ==> match r {
            Ok(msg) => msg@ == index_message(table_name@, column_name@),
            Err(e) => is_engine_failure(e),
        },
{
    let engine = match db.connection() {
        Ok(e) => e,
        Err(e) => return Err(e),
    };
    let index = index_name(table_name, column_name);
    let sql = create_index_sql(index.as_str(), table_name, column_name);
    match engine.run_batch(sql.as_str()) {
        Ok(()) => {
            let mut msg = String::from_str("Created index ");
            msg.append(index.as_str());
            msg.append(" on ");
            msg.append(table_name);
            msg.append(".");
            msg.append(column_name);
            Ok(msg)
        },
        Err(m) => Err(classify_failure(m)),
    }
}

} // verus!
