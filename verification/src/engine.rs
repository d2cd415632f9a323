//! The storage engine: the types of `rusqlite` that the library hands
//! through, and the calls it makes into it. Nothing in this file is proved;
//! each item says what it takes from the engine on trust.

use rusqlite::fallible_streaming_iterator::FallibleStreamingIterator;
use rusqlite::types::Value;
use rusqlite::{Connection, Row, Rows, Statement};
use vstd::prelude::*;

verus! {

/// `rusqlite::Connection`, an open connection to a database.
#[verifier::external_type_specification]
#[verifier::external_body]
pub struct ExConnection(Connection);

/// `rusqlite::Statement`, a statement prepared on a connection.
#[verifier::external_type_specification]
#[verifier::external_body]
pub struct ExStatement<'conn>(Statement<'conn>);

/// `rusqlite::Rows`, the cursor over the rows of a running query.
#[verifier::external_type_specification]
#[verifier::external_body]
pub struct ExRows<'stmt>(Rows<'stmt>);

/// `rusqlite::Row`, the row that a cursor stands on.
#[verifier::external_type_specification]
#[verifier::external_body]
pub struct ExRow<'stmt>(Row<'stmt>);

/// `rusqlite::Error`, what the engine reports on failure.
#[verifier::external_type_specification]
#[verifier::external_body]
pub struct ExError(rusqlite::Error);

/// `rusqlite::types::Value`, a value in the engine's own representation.
#[verifier::external_type_specification]
#[verifier::external_body]
pub struct ExValue(Value);

/// What reading one column of a row by its name gives.
#[derive(Debug, PartialEq)]
pub enum ColumnRead {
    /// The column is there and holds this value.
    Found(Value),
    /// The row has no column of that name.
    Missing(rusqlite::Error),
    /// The column is there but its value cannot be taken out.
    Failed(rusqlite::Error),
}

/// The names of the parameters that a prepared statement declares, each with
/// its leading `:`.
pub uninterp spec fn declared_parameters(statement: Statement<'_>) -> Set<Seq<char>>;

/// What reading the column `name` of a row gives.
pub uninterp spec fn column_read(row: Row<'_>, name: Seq<char>) -> ColumnRead;

/// Calls `Statement::parameter_index` and tells whether it found an index.
/// The answer depends on the statement and the name alone, so it is stated
/// as membership in the statement's set of declared parameters.
#[verifier::external_body]
pub(crate) fn declares(statement: &Statement<'_>, name: &str) -> (declared: bool)
    ensures
        declared == declared_parameters(*statement).contains(name@),
{
    matches!(statement.parameter_index(name), Ok(Some(_)))
}

/// Calls `Row::get` for a `Value` by column name and sorts the outcome:
/// `Error::InvalidColumnName` means that the column is absent, any other
/// error that the value could not be taken out. While a row is borrowed its
/// cursor cannot move, so the outcome depends on the row and the name alone.
#[verifier::external_body]
pub(crate) fn read_column(row: &Row<'_>, name: &str) -> (read: ColumnRead)
    ensures
        read == column_read(*row, name@),
{
    match row.get::<&str, Value>(name) {
        Ok(value) => ColumnRead::Found(value),
        Err(e @ rusqlite::Error::InvalidColumnName(_)) => ColumnRead::Missing(e),
        Err(e) => ColumnRead::Failed(e),
    }
}

/// `Clone::clone` of a `Value`, which `rusqlite` derives for it: the copy
/// holds what the value holds.
pub assume_specification[ <Value as Clone>::clone ](value: &Value) -> (copy: Value)
    ensures
        copy == *value,
;

/// Calls `Connection::prepare`. Whether the engine accepts the text depends
/// on the database, so nothing is claimed of the outcome.
#[verifier::external_body]
pub(crate) fn prepare<'conn>(connection: &'conn Connection, sql: &str) -> Result<
    Statement<'conn>,
    rusqlite::Error,
> {
    connection.prepare(sql)
}

/// Calls `Statement::execute` with named parameters and returns the number
/// of rows that the engine reports as changed. The statement is used up.
/// Nothing is claimed of the outcome.
#[verifier::external_body]
pub(crate) fn execute(statement: Statement<'_>, params: &Vec<(String, Value)>) -> Result<
    usize,
    rusqlite::Error,
> {
    let mut statement = statement;
    let named: Vec<(&str, &Value)> = params.iter().map(|p| (p.0.as_str(), &p.1)).collect();
    statement.execute(named.as_slice())
}

/// Calls `Statement::query` with named parameters and returns the cursor
/// over the result. Nothing is claimed of it.
#[verifier::external_body]
pub(crate) fn query<'stmt>(
    statement: &'stmt mut Statement<'_>,
    params: &Vec<(String, Value)>,
) -> Result<Rows<'stmt>, rusqlite::Error> {
    let named: Vec<(&str, &Value)> = params.iter().map(|p| (p.0.as_str(), &p.1)).collect();
    statement.query(named.as_slice())
}

/// Calls `FallibleStreamingIterator::advance` of `Rows`, the first half of
/// `Rows::next`: it moves the cursor one step and reports a failure of the
/// engine. The cursor is handed back. Nothing is claimed of the outcome.
#[verifier::external_body]
pub(crate) fn advance<'stmt>(rows: Rows<'stmt>) -> (Rows<'stmt>, Result<(), rusqlite::Error>) {
    let mut rows = rows;
    let outcome = FallibleStreamingIterator::advance(&mut rows);
    (rows, outcome)
}

/// Calls `FallibleStreamingIterator::get` of `Rows`, the second half of
/// `Rows::next`: the row that the cursor stands on, or `None` after the last
/// one. Nothing is claimed of it.
#[verifier::external_body]
pub(crate) fn current<'rows, 'stmt>(rows: &'rows Rows<'stmt>) -> Option<&'rows Row<'stmt>> {
    FallibleStreamingIterator::get(rows)
}

/// Calls `Connection::last_insert_rowid`, the row id of the most recent
/// successful insert on the connection. Nothing is claimed of it.
#[verifier::external_body]
pub(crate) fn last_insert_rowid(connection: &Connection) -> i64 {
    connection.last_insert_rowid()
}

} // verus!
