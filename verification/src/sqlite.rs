//! The SQLite storage adapter.
//!
//! Storage is an external collaborator: the adapter's work happens inside
//! the sqlite and sql_builder crates, behind the trusted items below, and
//! nothing beyond the [`DB`] interface is promised of it.

use crate::db::DbError;
use crate::db::DB;
use vstd::prelude::*;
use vstd::string::StringExecFns;

verus! {

#[verifier::external_type_specification]
#[verifier::external_body]
pub struct ExConnectionThreadSafe(sqlite::ConnectionThreadSafe);

#[verifier::external_type_specification]
#[verifier::external_body]
pub struct ExSqliteError(sqlite::Error);

/// A storage adapter over a serialized SQLite connection to `test.db`.
pub struct SQLite {
    conn: sqlite::ConnectionThreadSafe,
}

impl SQLite {
    /// Relies on sqlite's `Connection::open_thread_safe_with_flags` and
    /// `set_busy_timeout`: opens `test.db` read-write in the serialized
    /// threading mode with a five-second busy timeout.
    #[verifier::external_body]
    pub fn new() -> (r: Result<SQLite, DbError>) {
        let flags = sqlite::OpenFlags::new().with_read_write();
        let mut conn = sqlite::Connection::open_thread_safe_with_flags("test.db", flags).map_err(
            |e| DbError { message: e.to_string() },
        )?;
        conn.set_busy_timeout(5000).map_err(|e| DbError { message: e.to_string() })?;
        Ok(SQLite { conn })
    }
}

/// Relies on sqlite's `Error` rendering: the failure's code and message as
/// text, carried into the library's own error.
#[verifier::external_body]
fn storage_error(e: sqlite::Error) -> (r: DbError) {
    DbError { message: e.to_string() }
}

/// The items joined with a comma and a space between each pair.
pub open spec fn comma_join(items: Seq<Seq<char>>) -> Seq<char>
    decreases items.len(),
{
    if items.len() == 0 {
        Seq::empty()
    } else if items.len() == 1 {
        items[0]
    } else {
        items[0] + ", "@ + comma_join(items.subrange(1, items.len() as int))
    }
}

/// The text the insert-statement builder renders for a table and its field
/// names: the upsert head, the primary key column and the field names as
/// the column list, and one named placeholder per column.
pub open spec fn insert_sql_of(table: Seq<char>, field_names: Seq<Seq<char>>) -> Seq<char> {
    let columns = seq!["y_id"@] + field_names;
    let markers = columns.map_values(|n: Seq<char>| ":"@ + n);
    "INSERT OR REPLACE INTO "@ + table + " ("@ + comma_join(columns) + ") VALUES ("@ + comma_join(
        markers,
    ) + ");"@
}

/// The text the read-statement builder renders for a table: every column
/// of the row whose primary key equals its named placeholder.
pub open spec fn read_sql_of(table: Seq<char>) -> Seq<char> {
    "SELECT * FROM "@ + table + " WHERE y_id = :y_id;"@
}

/// Relies on sql_builder's `SqlBuilder` (`insert_into`, `field`, `values`,
/// `sql`): the insert statement for `table` with a named placeholder for
/// the primary key column `y_id` and for each field name in `values`. The
/// statement head is rewritten to `INSERT OR REPLACE INTO`: the storage
/// contract demands an upsert keyed on the primary key, so inserting an
/// existing key replaces its row instead of failing.
#[verifier::external_body]
fn build_insert_sql(table: &str, values: &Vec<(String, String)>) -> (r: Result<String, DbError>)
    ensures
        r matches Ok(t) ==> t@ == insert_sql_of(
            table@,
            values@.map_values(|p: (String, String)| p.0@),
        ),
{
    let mut sql = sql_builder::SqlBuilder::insert_into(table);
    sql.field("y_id");
    let mut vals: Vec<String> = vec![String::from(":y_id")];
    for (name, _) in values.iter() {
        sql.field(name);
        vals.push(format!(":{}", name));
    }
    sql.values(&vals);
    let text = sql.sql().map_err(|e| DbError { message: e.to_string() })?;
    Ok(text.replacen("INSERT INTO", "INSERT OR REPLACE INTO", 1))
}

/// Relies on sqlite's `prepare`, `bind` and `next`: runs the prepared
/// INSERT, binding `key` to `:y_id` and each field value to its named
/// placeholder; an INSERT that yields a row is reported as an error.
#[verifier::external_body]
fn run_insert(
    conn: &mut sqlite::ConnectionThreadSafe,
    text: &String,
    key: &str,
    values: &Vec<(String, String)>,
) -> (r: Result<(), sqlite::Error>) {
    let mut stmt = conn.prepare(text.as_str())?;
    stmt.bind((":y_id", key))?;
    for (name, value) in values.iter() {
        stmt.bind((format!(":{}", name).as_str(), value.as_str()))?;
    }
    match stmt.next()? {
        sqlite::State::Done => Ok(()),
        sqlite::State::Row => Err(sqlite::Error { code: None, message: None }),
    }
}

/// Relies on sql_builder's `SqlBuilder` (`select_from`, `field`,
/// `and_where`, `sql`): the SELECT of every column of `table` where `y_id`
/// equals its named placeholder.
#[verifier::external_body]
fn build_read_sql(table: &str) -> (r: Result<String, DbError>)
    ensures
        r matches Ok(t) ==> t@ == read_sql_of(table@),
{
    let mut sql = sql_builder::SqlBuilder::select_from(table);
    sql.field("*");
    sql.and_where("y_id = :y_id");
    sql.sql().map_err(|e| DbError { message: e.to_string() })
}

/// Relies on sqlite's `prepare`, `bind`, `next`, `column_name` and `read`:
/// every column of each row under `key` is appended to `result` as a
/// `(name, value)` pair, and the number of rows seen comes back.
#[verifier::external_body]
fn run_read(
    conn: &mut sqlite::ConnectionThreadSafe,
    text: &String,
    key: &str,
    result: &mut Vec<(String, String)>,
) -> (r: Result<usize, sqlite::Error>) {
    let mut stmt = conn.prepare(text.as_str())?;
    stmt.bind((":y_id", key))?;
    let mut rows: usize = 0;
    while let sqlite::State::Row = stmt.next()? {
        rows += 1;
        for idx in 0..stmt.column_count() {
            result.push((stmt.column_name(idx)?.to_string(), stmt.read(idx)?));
        }
    }
    Ok(rows)
}

/// The storage contract's missing-row rule: a read that matched no row is
/// a failure, and only then.
fn read_outcome(rows: usize) -> (r: Result<(), DbError>)
    ensures
        r is Err <==> rows == 0,
{
    if rows == 0 {
        Err(DbError::new(String::from_str("row not found")))
    } else {
        Ok(())
    }
}

impl DB for SQLite {
    fn init(&mut self) -> (r: Result<(), DbError>) {
        Ok(())
    }

    fn insert(&mut self, table: &str, key: &str, values: &Vec<(String, String)>) -> (r: Result<
        (),
        DbError,
    >) {
        let text = match build_insert_sql(table, values) {
            Ok(text) => text,
            Err(e) => {
                return Err(e);
            },
        };
        match run_insert(&mut self.conn, &text, key, values) {
            Ok(()) => Ok(()),
            Err(e) => Err(storage_error(e)),
        }
    }

    fn read(&mut self, table: &str, key: &str, result: &mut Vec<(String, String)>) -> (r: Result<
        (),
        DbError,
    >) {
        let text = match build_read_sql(table) {
            Ok(text) => text,
            Err(e) => {
                return Err(e);
            },
        };
        match run_read(&mut self.conn, &text, key, result) {
            Ok(rows) => read_outcome(rows),
            Err(e) => Err(storage_error(e)),
        }
    }
}

} // verus!
