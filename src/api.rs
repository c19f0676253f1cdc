//! The operations offered to callers across the language boundary.
use crate::db::{
    create_index, execute_query, get_database_info, import_file, index_entries, index_list,
    column_of, init_database as open_database, is_engine_failure, snapshot_of, DatabaseInfo,
    Database, DbError, IndexInfo, QueryResult, TableInfo, index_view, marshaled,
};
use crate::engine::{Engine, RawTable};
use crate::naming::import_table;
use vstd::prelude::*;

verus! {

/// Installs the connection that opening the database at the caller's path
/// produced; a failure to open is an I/O error.
pub fn init_database<E: Engine>(db: &mut Database<E>, opened: Result<E, String>) -> (r: Result<
    bool,
    DbError,
>)
    ensures
        opened is Ok <==> r matches Ok(true),
        r is Ok ==> final(db).is_open(),
        opened matches Ok(e) ==> final(db).installed() == Some(e),
        opened matches Err(m) ==> (r matches Err(DbError::Io(s)) && s@ == m@) && final(db).is_open()
            == old(db).is_open() && final(db).installed() == old(db).installed(),
{
    match open_database(db, opened) {
        Ok(_) => Ok(true),
        Err(e) => Err(e),
    }
}

/// Imports the Parquet file at `file_path` into `table_name`, or into a table
/// named after the file's stem when `table_name` is empty.
pub fn import_parquet_file<E: Engine>(db: &Database<E>, file_path: String, table_name: String) -> (r:
    Result<bool, DbError>)
    ensures
        !db.is_open() ==> r matches Err(DbError::NotInitialized),
        db.is_open() && import_table(file_path@, table_name@) is None ==> (r matches Err(
            DbError::InvalidPath(p),
        ) && p@ == file_path@),
        db.is_open() && import_table(file_path@, table_name@) is Some ==> match r {
            Ok(b) => b,
            Err(e) => is_engine_failure(e),
        },
{
    match import_file(db, file_path.as_str(), table_name.as_str()) {
        Ok(_) => Ok(true),
        Err(e) => Err(e),
    }
}

/// Runs a query and returns its whole result as text.
pub fn run_query<E: Engine>(db: &Database<E>, query: String) -> (r: Result<QueryResult, DbError>)
    ensures
        !db.is_open() ==> r matches Err(DbError::NotInitialized),
        db.is_open() ==> match r {
            Ok(res) => res.wf() && exists|raw: RawTable| marshaled(raw, res),
            Err(e) => is_engine_failure(e),
        },
{
    execute_query(db, query.as_str())
}

/// Every table of the catalog with its row count, schema and indexes.
pub fn get_all_tables<E: Engine>(db: &Database<E>) -> (r: Result<Vec<TableInfo>, DbError>)
    ensures
        !db.is_open() ==> r matches Err(DbError::NotInitialized),
        db.is_open() ==> match r {
            Ok(tables) => (DatabaseInfo { table_count: tables@.len() as usize, tables }).wf()
                && exists|listed: RawTable| snapshot_of(column_of(listed, 0), tables@),
            Err(e) => is_engine_failure(e),
        },
{
    match get_database_info(db) {
        Ok(info) => Ok(info.tables),
        Err(e) => Err(e),
    }
}

/// Every index of the catalog with its table, table by table.
pub fn get_all_indices<E: Engine>(db: &Database<E>) -> (r: Result<Vec<IndexInfo>, DbError>)
    ensures
        !db.is_open() ==> r matches Err(DbError::NotInitialized),
        db.is_open() ==> match r {
            Ok(indices) => exists|info: DatabaseInfo|
                info.wf() && (exists|listed: RawTable| snapshot_of(column_of(listed, 0), info.tables@))
                    && indices@.map_values(|x: IndexInfo| index_view(x)) == index_entries(
                    info.tables@,
                ),
            Err(e) => is_engine_failure(e),
        },
{
    match get_database_info(db) {
        Ok(info) => {
            let r = index_list(&info);
            Ok(r)
        },
        Err(e) => Err(e),
    }
}

/// Creates the index `idx_<table_name>_<column_name>`.
pub fn create_table_index<E: Engine>(db: &Database<E>, table_name: String, column_name: String) -> (r:
    Result<bool, DbError>)
    ensures
        !db.is_open() ==> r matches Err(DbError::NotInitialized),
        db.is_open() ==> match r {
            Ok(b) => b,
            Err(e) => is_engine_failure(e),
        },
{
    match create_index(db, table_name.as_str(), column_name.as_str()) {
        Ok(_) => Ok(true),
        Err(e) => Err(e),
    }
}

} // verus!
