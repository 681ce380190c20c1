//! The storage capability the workload drives.
//!
//! The core consumes only this three-method interface; concrete adapters
//! (an SQLite binding, a test double that counts operations) implement it.
//! Storage is an external collaborator: nothing is promised of what its
//! methods do, and callers treat every result as fallible.

use crate::sqlite::SQLite;
use vstd::prelude::*;
use vstd::string::StringExecFns;

verus! {

/// A storage failure, carrying the adapter's message.
#[derive(Debug)]
pub struct DbError {
    pub message: String,
}

impl DbError {
    pub fn new(message: String) -> (r: DbError)
        ensures
            r.message == message,
    {
        DbError { message }
    }
}

/// A key-value store: rows of `field name -> value` under a string key in a
/// named table.
pub trait DB {
    /// Idempotent schema setup; called once before the first command.
    fn init(&mut self) -> Result<(), DbError>;

    /// Upserts the row `values` under `key`.
    fn insert(&mut self, table: &str, key: &str, values: &Vec<(String, String)>) -> Result<
        (),
        DbError,
    >;

    /// Reads the row under `key` into `result`, one `(field name, value)`
    /// pair per column. A missing row is a failure.
    fn read(&mut self, table: &str, key: &str, result: &mut Vec<(String, String)>) -> Result<
        (),
        DbError,
    >;
}

/// Selects a storage adapter by name. Only `sqlite` exists; opening it may
/// still fail, so success is owed on no input. An unknown name is refused
/// with a message that carries the name itself.
pub fn create_db(db: &str) -> (r: Result<SQLite, DbError>)
    ensures
        r is Ok ==> db@ == "sqlite"@,
        db@ != "sqlite"@ ==> (r matches Err(e) && e.message@ == db@
            + " is an invalid database name"@),
{
    let name = String::from_str(db);
    let expected = String::from_str("sqlite");
    if name == expected {
        SQLite::new()
    } else {
        let mut message = String::from_str(db);
        message.append(" is an invalid database name");
        Err(DbError::new(message))
    }
}

} // verus!
