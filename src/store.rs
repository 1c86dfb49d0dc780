//! The calls into SQLite (through rusqlite), into the XDG directory lookup
//! and into std's UTF-8 check that the catalog relies on. Each function here
//! makes its call and converts arguments and result; the decisions are made
//! by the verified code that calls it.
use vstd::prelude::*;
use vstd::utf8::{decode_utf8, valid_utf8};
use rusqlite::types::{Value, ValueRef};
use rusqlite::{Connection, Rows, Statement};
use std::path::PathBuf;
use xdg::BaseDirectories;

verus! {

#[verifier::external_type_specification]
#[verifier::external_body]
pub struct ExConnection(rusqlite::Connection);

#[verifier::external_type_specification]
#[verifier::external_body]
pub struct ExStatement<'conn>(rusqlite::Statement<'conn>);

#[verifier::external_type_specification]
#[verifier::external_body]
pub struct ExRows<'stmt>(rusqlite::Rows<'stmt>);

#[verifier::external_type_specification]
#[verifier::external_body]
pub struct ExSqlError(rusqlite::Error);

#[verifier::external_type_specification]
#[verifier::external_body]
pub struct ExBaseDirectories(xdg::BaseDirectories);

#[verifier::external_type_specification]
#[verifier::external_body]
pub struct ExPathBuf(std::path::PathBuf);

/// One column of a row as the store handed it back. A floating-point value
/// is only noted, not held: no column of the catalog holds one.
#[derive(Debug, Clone, PartialEq, Eq)]
pub enum StoredValue {
    Null,
    Integer(i64),
    Real,
    Text(Vec<u8>),
    Blob(Vec<u8>),
}

/// A value bound to a placeholder of a statement.
#[derive(Debug, Clone, PartialEq, Eq)]
pub enum SqlParam {
    Null,
    Integer(i64),
    Text(String),
    Blob(Vec<u8>),
}

/// Relies on rusqlite's `Connection::open`: opens (creating if need be) the
/// store at `path`; `":memory:"` names a fresh store held in memory.
#[verifier::external_body]
pub(crate) fn open_connection(path: PathBuf) -> (r: Result<Connection, rusqlite::Error>) {
    Connection::open(path)
}

/// Relies on rusqlite's `Connection::execute`: runs one statement with
/// `params` bound to its placeholders, in order.
#[verifier::external_body]
pub(crate) fn execute(conn: &Connection, sql: &str, params: Vec<SqlParam>) -> (r: Result<
    usize,
    rusqlite::Error,
>) {
    let values = params.into_iter().map(
        |p| match p {
            SqlParam::Null => Value::Null,
            SqlParam::Integer(n) => Value::Integer(n),
            SqlParam::Text(s) => Value::Text(s),
            SqlParam::Blob(b) => Value::Blob(b),
        },
    );
    conn.execute(sql, rusqlite::params_from_iter(values))
}

/// Relies on rusqlite's `Connection::last_insert_rowid`: the rowid of the
/// latest successful INSERT on this connection.
#[verifier::external_body]
pub(crate) fn last_insert_rowid(conn: &Connection) -> (r: i64) {
    conn.last_insert_rowid()
}

/// Relies on rusqlite's `Connection::prepare`: compiles one statement.
#[verifier::external_body]
pub(crate) fn prepare<'c>(conn: &'c Connection, sql: &str) -> (r: Result<
    Statement<'c>,
    rusqlite::Error,
>) {
    conn.prepare(sql)
}

/// Relies on rusqlite's `Statement::query`: starts a query without parameters.
#[verifier::external_body]
pub(crate) fn query<'s>(stmt: &'s mut Statement<'_>) -> (r: Result<Rows<'s>, rusqlite::Error>) {
    stmt.query([])
}

/// Relies on rusqlite's `Rows::next` and `Row::get_ref`: the first `width`
/// columns of the next row, or `None` once every row has been read. Reading
/// a column past the last one is an error.
#[verifier::external_body]
pub(crate) fn next_row(rows: &mut Rows<'_>, width: usize) -> (r: Result<
    Option<Vec<StoredValue>>,
    rusqlite::Error,
>)
    ensures
        r matches Ok(Some(cells)) ==> cells@.len() == width,
{
    let Some(row) = rows.next()? else { return Ok(None) };
    let cell = |v: ValueRef<'_>| match v {
        ValueRef::Null => StoredValue::Null,
        ValueRef::Integer(n) => StoredValue::Integer(n),
        ValueRef::Real(_) => StoredValue::Real,
        ValueRef::Text(t) => StoredValue::Text(t.to_vec()),
        ValueRef::Blob(b) => StoredValue::Blob(b.to_vec()),
    };
    (0..width).map(|i| row.get_ref(i).map(cell)).collect::<Result<Vec<_>, _>>().map(Some)
}

/// Relies on `std::str::from_utf8`: the text that `bytes` encode, if they
/// are well-formed UTF-8.
#[verifier::external_body]
pub(crate) fn utf8_text(bytes: &[u8]) -> (r: Option<String>)
    ensures
        r is Some <==> valid_utf8(bytes@),
        r matches Some(s) ==> s@ == decode_utf8(bytes@),
{
    std::str::from_utf8(bytes).ok().map(|s| s.to_string())
}

/// Relies on xdg's `BaseDirectories::with_prefix`: the user's base
/// directories, with `prefix` as the application's subdirectory.
#[verifier::external_body]
pub(crate) fn base_directories(prefix: &str) -> (r: Option<BaseDirectories>) {
    BaseDirectories::with_prefix(prefix).ok()
}

/// Relies on xdg's `BaseDirectories::place_data_file`: the path for `name`
/// under the user's data directory, whose parent directories it creates.
#[verifier::external_body]
pub(crate) fn place_data_file(dirs: &BaseDirectories, name: &str) -> (r: Option<PathBuf>) {
    dirs.place_data_file(name).ok()
}

} // verus!
