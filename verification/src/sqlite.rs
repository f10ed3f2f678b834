//! The storage engine: the calls into `rusqlite` and the guard around the
//! connection.
//!
//! Nothing in this file is proved. Each function performs one operation of
//! the storage engine or of the guard and hands the outcome on. What comes
//! back depends on what the storage holds and on the clock, so no function
//! here states anything about its result.

use std::sync::{Mutex, MutexGuard};

use rusqlite::Connection;
use vstd::prelude::*;

use crate::records::{DownloadRecord, PageViewRecord};

verus! {

/// `rusqlite::Connection`: an open storage handle. Opaque.
#[verifier::external_type_specification]
#[verifier::external_body]
pub struct ExConnection(rusqlite::Connection);

/// `rusqlite::Error`: the cause of a storage failure. Opaque.
#[verifier::external_type_specification]
#[verifier::external_body]
pub struct ExError(rusqlite::Error);

/// `std::sync::Mutex`: the exclusive access guard around a value. Opaque.
#[verifier::external_type_specification]
#[verifier::external_body]
#[verifier::reject_recursive_types(T)]
pub struct ExMutex<T: ?Sized>(std::sync::Mutex<T>);

/// `std::sync::MutexGuard`: the held guard, released when it goes out of
/// scope. Opaque.
#[verifier::external_type_specification]
#[verifier::external_body]
#[verifier::reject_recursive_types(T)]
pub struct ExMutexGuard<'a, T: ?Sized + 'a>(std::sync::MutexGuard<'a, T>);

/// `rusqlite::Connection::open`: opens the storage at `path` and creates it
/// where there is none. Nothing is claimed of the outcome.
#[verifier::external_body]
pub(crate) fn connect(path: &str) -> (res: Result<Connection, rusqlite::Error>) {
    Connection::open(path)
}

/// `std::sync::Mutex::new`: puts the connection behind its guard.
#[verifier::external_body]
pub(crate) fn guard(conn: Connection) -> (guarded: Mutex<Connection>) {
    Mutex::new(conn)
}

/// `std::sync::Mutex::lock`: waits for the guard and takes it. `None` where
/// the guard is poisoned. The caller must not hold the guard already.
/// Nothing else is claimed of the outcome.
#[verifier::external_body]
pub(crate) fn acquire<'a>(guarded: &'a Mutex<Connection>) -> (held: Option<MutexGuard<'a, Connection>>) {
    match guarded.lock() {
        Ok(conn) => Some(conn),
        Err(_) => None,
    }
}

/// `rusqlite::Connection::execute_batch`: runs the statements of `sql` one
/// after the other. Nothing is claimed of the outcome.
#[verifier::external_body]
pub(crate) fn execute_batch(conn: &MutexGuard<'_, Connection>, sql: &str) -> (res: Result<
    (),
    rusqlite::Error,
>) {
    conn.execute_batch(sql)
}

/// `rusqlite::Connection::execute`: runs the one statement `sql` with `args`
/// bound to its parameters in their order, and returns the number of rows it
/// changed. Nothing is claimed of the outcome.
#[verifier::external_body]
pub(crate) fn execute(conn: &MutexGuard<'_, Connection>, sql: &str, args: &Vec<&str>) -> (res: Result<
    usize,
    rusqlite::Error,
>) {
    conn.execute(sql, rusqlite::params_from_iter(args.iter()))
}

/// `rusqlite::Connection::query_row`: runs the query `sql` with `args` bound
/// to its parameters and reads the first column of its first row as an
/// integer. Nothing is claimed of the outcome.
#[verifier::external_body]
pub(crate) fn query_integer(conn: &MutexGuard<'_, Connection>, sql: &str, args: &Vec<&str>) -> (res: Result<
    i64,
    rusqlite::Error,
>) {
    conn.query_row(sql, rusqlite::params_from_iter(args.iter()), |row| row.get(0))
}

/// `rusqlite::Connection::query_row`: runs the query `sql`, which has no
/// parameters, and reads the first column of its first row as text. Nothing
/// is claimed of the outcome.
#[verifier::external_body]
pub(crate) fn query_text(conn: &MutexGuard<'_, Connection>, sql: &str) -> (res: Result<String, rusqlite::Error>) {
    conn.query_row(sql, [], |row| row.get(0))
}

/// `rusqlite::Statement::query_map` on a prepared `sql` with `args` bound to
/// its parameters: reads each row of the result as a page view, column by
/// column in the order of the fields. Nothing is claimed of the outcome.
#[verifier::external_body]
pub(crate) fn query_page_views(conn: &MutexGuard<'_, Connection>, sql: &str, args: &Vec<&str>) -> (res:
    Result<Vec<PageViewRecord>, rusqlite::Error>) {
    let mut stmt = conn.prepare(sql)?;
    let rows = stmt.query_map(rusqlite::params_from_iter(args.iter()), |row| {
        Ok(PageViewRecord {
            id: row.get(0)?, domain: row.get(1)?, path: row.get(2)?,
            referrer: row.get(3)?, browser: row.get(4)?, os: row.get(5)?,
            screen: row.get(6)?, visitor_id: row.get(7)?, created_at: row.get(8)?,
        })
    })?;
    rows.collect()
}

/// `rusqlite::Statement::query_map` on a prepared `sql` with `args` bound to
/// its parameters: reads each row of the result as a download, column by
/// column in the order of the fields. Nothing is claimed of the outcome.
#[verifier::external_body]
pub(crate) fn query_downloads(conn: &MutexGuard<'_, Connection>, sql: &str, args: &Vec<&str>) -> (res:
    Result<Vec<DownloadRecord>, rusqlite::Error>) {
    let mut stmt = conn.prepare(sql)?;
    let rows = stmt.query_map(rusqlite::params_from_iter(args.iter()), |row| {
        Ok(DownloadRecord {
            id: row.get(0)?, app_name: row.get(1)?, version: row.get(2)?,
            platform: row.get(3)?, referrer: row.get(4)?, created_at: row.get(5)?,
        })
    })?;
    rows.collect()
}

} // verus!
