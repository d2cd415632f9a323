//! The runtime facade: what a record type offers to the mapping system, and
//! the operations on an open connection that put a statement, the binder and
//! the mapper together.
//!
//! Each operation is one unit of work: it prepares the statement, binds,
//! runs it and decodes what comes back. Nothing is retried, and what the
//! engine reports is handed on as it is.
//!
//! What the engine and a record type answer is theirs to decide, and the same
//! call may be answered differently the next time. The contracts therefore
//! speak in relations: `prepared`, `queried`, `stepped`, `executed` and
//! `generated` hold of what was handed to the engine and what it gave back,
//! `offered` and `made` of what a record type was asked and what it gave.
//! The contract of an operation says how its result is made of such answers.

use crate::engine::{advance, current, execute, last_insert_rowid, prepare, query};
use crate::error::RuntimeError;
use rusqlite::types::Value;
use rusqlite::{Connection, Row, Rows, Statement};
use vstd::prelude::*;

verus! {

/// A record that can hand its fields to a prepared statement as named
/// parameters: only those that the statement declares.
pub trait SqlParam {
    fn to_named_params(&self, statement: &Statement<'_>) -> Vec<(String, Value)>;
}

/// A record that can be rebuilt from a result row.
pub trait SqlResult: Sized {
    fn from_row(row: &Row<'_>) -> Result<Self, RuntimeError>;
}

/// A record type with an insert statement.
pub trait SqlInsert {
    fn insert_statement(table: &str) -> String;
}

/// A record type with an update statement.
pub trait SqlUpdate {
    fn update_statement(table: &str) -> String;
}

/// A record type with a delete statement.
pub trait SqlDelete {
    fn delete_statement(table: &str) -> String;
}

/// A record type with an upsert statement.
pub trait SqlUpsert {
    fn upsert_statement(table: &str) -> String;
}

/// What an insert returns, given the number of rows that it changed and the
/// row id that the engine generated last: the row id where exactly one row
/// changed.
pub open spec fn insert_result(changes: usize, row_id: i64) -> Result<i64, RuntimeError> {
    if changes == 1 {
        Ok(row_id)
    } else {
        Err(RuntimeError::ChangedRows(changes))
    }
}

/// What a query for one row returns, given its first row, if any, and
/// whether another row follows it.
pub open spec fn single_result<T>(first: Option<T>, more: bool) -> Result<T, RuntimeError> {
    match first {
        None => Err(RuntimeError::NoRows),
        Some(record) => if more {
            Err(RuntimeError::MoreThanOneRow)
        } else {
            Ok(record)
        },
    }
}

/// Decides what an insert returns: the generated row id where exactly one
/// row changed, else the error that holds the number of changed rows.
pub fn insert_outcome(changes: usize, row_id: i64) -> (r: Result<i64, RuntimeError>)
    ensures
        r == insert_result(changes, row_id),
{
    if changes == 1 {
        Ok(row_id)
    } else {
        Err(RuntimeError::ChangedRows(changes))
    }
}

/// Decides what a query for one row returns: the record of its only row, or
/// the error for no row or for more than one.
pub fn single_row<T>(first: Option<T>, more: bool) -> (r: Result<T, RuntimeError>)
    ensures
        r == single_result(first, more),
{
    match first {
        None => Err(RuntimeError::NoRows),
        Some(record) => if more {
            Err(RuntimeError::MoreThanOneRow)
        } else {
            Ok(record)
        },
    }
}

/// The operations of the mapping system on an open connection.
pub trait BatiskafConnection {
    /// Runs a query that must give exactly one row and maps that row.
    fn select_one<T: SqlResult>(&self, sql: &str, params: &Vec<(String, Value)>) -> Result<
        T,
        RuntimeError,
    >;

    /// Runs a query and maps every row, in result order.
    fn select_many<T: SqlResult>(&self, sql: &str, params: &Vec<(String, Value)>) -> Result<
        Vec<T>,
        RuntimeError,
    >;

    /// Inserts a record into a table and returns the row id that the engine
    /// generated. Fails unless exactly one row changed.
    fn insert<T: SqlInsert + SqlParam>(&self, table: &str, value: &T) -> (r: Result<
        i64,
        RuntimeError,
    >)
        ensures
            r matches Err(e) ==> e is Engine || (e matches RuntimeError::ChangedRows(n) && n != 1),
    ;

    /// Updates the row of a record in a table and returns the number of rows
    /// changed, which may be zero.
    fn update<T: SqlUpdate + SqlParam>(&self, table: &str, value: &T) -> (r: Result<
        usize,
        RuntimeError,
    >)
        ensures
            r matches Err(e) ==> e is Engine,
    ;

    /// Deletes the row of a record from a table and returns the number of
    /// rows changed, which may be zero.
    fn delete<T: SqlDelete + SqlParam>(&self, table: &str, value: &T) -> (r: Result<
        usize,
        RuntimeError,
    >)
        ensures
            r matches Err(e) ==> e is Engine,
    ;
}

/// What an operation returns for what the engine gave: a value as it is, a
/// failure as the engine's.
pub open spec fn engine_result<V>(outcome: Result<V, rusqlite::Error>) -> Result<V, RuntimeError> {
    match outcome {
        Ok(value) => Ok(value),
        Err(e) => Err(RuntimeError::Engine(e)),
    }
}

/// Whether `outcome` is what the engine gave when the text `sql` was
/// prepared on the connection.
pub closed spec fn prepared<'c>(
    connection: &'c Connection,
    sql: &str,
    outcome: Result<Statement<'c>, rusqlite::Error>,
) -> bool {
    call_ensures(prepare, (connection, sql), outcome)
}

/// Whether `outcome` is what the engine gave when the statement was run with
/// the parameters `params`.
pub closed spec fn executed(
    statement: Statement<'_>,
    params: &Vec<(String, Value)>,
    outcome: Result<usize, rusqlite::Error>,
) -> bool {
    call_ensures(execute, (statement, params), outcome)
}

/// Whether `row_id` is what the engine gave as the row id of the latest
/// insert on the connection.
pub closed spec fn generated(connection: &Connection, row_id: i64) -> bool {
    call_ensures(last_insert_rowid, (connection,), row_id)
}

/// Whether `params` is what the record offered for the statement.
pub open spec fn offered<T: SqlParam>(
    value: &T,
    statement: &Statement<'_>,
    params: Vec<(String, Value)>,
) -> bool {
    call_ensures(T::to_named_params, (value, statement), params)
}

/// Whether `r` is the outcome of preparing the text `sql` on the connection
/// and running the statement with what the record offers for it: the number
/// of rows that the engine reports as changed, or the failure of the engine
/// to prepare or to run the statement.
pub open spec fn ran<T: SqlParam>(
    connection: &Connection,
    sql: &str,
    value: &T,
    r: Result<usize, RuntimeError>,
) -> bool {
    exists|opened: Result<Statement<'_>, rusqlite::Error>|
        #[trigger] prepared(connection, sql, opened) && match opened {
            Err(e) => r == Err::<usize, RuntimeError>(RuntimeError::Engine(e)),
            Ok(statement) => exists|
                params: Vec<(String, Value)>,
                outcome: Result<usize, rusqlite::Error>,
            |
                offered(value, &statement, params) && #[trigger] executed(
                    statement,
                    &params,
                    outcome,
                ) && r == engine_result(outcome),
        }
}

/// Whether `cursor` is what the engine gave when the statement was started
/// as a query with the parameters `params`.
pub closed spec fn queried(
    statement: Statement<'_>,
    params: &Vec<(String, Value)>,
    cursor: Result<Rows<'_>, rusqlite::Error>,
) -> bool {
    exists|borrowed: &mut Statement<'_>|
        *borrowed == statement && #[trigger] call_ensures(query, (borrowed, params), cursor)
}

/// Whether `cursor` is what the engine gave for the text `sql`, prepared on
/// the connection and started as a query with the parameters `params`: the
/// cursor over its rows, or the failure to prepare or to start it.
pub open spec fn opened(
    connection: &Connection,
    sql: &str,
    params: &Vec<(String, Value)>,
    cursor: Result<Rows<'_>, rusqlite::Error>,
) -> bool {
    exists|statement: Result<Statement<'_>, rusqlite::Error>|
        #[trigger] prepared(connection, sql, statement) && match statement {
            Err(e) => cursor == Err::<Rows<'_>, rusqlite::Error>(e),
            Ok(statement) => queried(statement, params, cursor),
        }
}

/// Whether one step of the cursor `rows` gave `row` and left the cursor as
/// `after`: the row that the cursor then stands on, `None` after the last
/// row, or the failure of the engine to move.
pub closed spec fn stepped(
    rows: Rows<'_>,
    after: Rows<'_>,
    row: Result<Option<&Row<'_>>, rusqlite::Error>,
) -> bool {
    exists|moved: Result<(), rusqlite::Error>|
        #[trigger] call_ensures(advance, (rows,), (after, moved)) && match moved {
            Err(e) => row == Err::<Option<&Row<'_>>, rusqlite::Error>(e),
            Ok(_) => exists|standing: Option<&Row<'_>>|
                #[trigger] call_ensures(current, (&after,), standing) && row == Ok::<
                    Option<&Row<'_>>,
                    rusqlite::Error,
                >(standing),
        }
}

/// Whether `outcome` is what the record type made of the row.
pub open spec fn made<T: SqlResult>(row: &Row<'_>, outcome: Result<T, RuntimeError>) -> bool {
    call_ensures(T::from_row, (row,), outcome)
}

/// Whether `r` is what a query for one row returns from the cursor `rows`.
/// The first step decides between a failure of the engine, no row, and a
/// first row. What the record type makes of the first row is returned where
/// it is an error. Else a second step decides between a failure of the
/// engine, the record, and more than one row.
pub open spec fn only_row<T: SqlResult>(rows: Rows<'_>, r: Result<T, RuntimeError>) -> bool {
    exists|after: Rows<'_>, first: Result<Option<&Row<'_>>, rusqlite::Error>|
        #[trigger] stepped(rows, after, first) && match first {
            Err(e) => r == Err::<T, RuntimeError>(RuntimeError::Engine(e)),
            Ok(None) => r == single_result::<T>(None, false),
            Ok(Some(row)) => exists|outcome: Result<T, RuntimeError>|
                #[trigger] made(row, outcome) && match outcome {
                    Err(e) => r == Err::<T, RuntimeError>(e),
                    Ok(record) => exists|
                        last: Rows<'_>,
                        second: Result<Option<&Row<'_>>, rusqlite::Error>,
                    |
                        #[trigger] stepped(after, last, second) && match second {
                            Err(e) => r == Err::<T, RuntimeError>(RuntimeError::Engine(e)),
                            Ok(following) => r == single_result(Some(record), following is Some),
                        },
                },
        }
}

/// Whether `r` is what a query for every row returns from the cursor `rows`,
/// given the records `taken` from the rows before: each step decides
/// between a failure of the engine, the end of the rows, where the records
/// taken are returned, and one more row. A row beyond what a vector can hold
/// is an error. `steps` bounds the number of rows still to come.
pub open spec fn every_row<T: SqlResult>(
    rows: Rows<'_>,
    taken: Seq<T>,
    r: Result<Seq<T>, RuntimeError>,
    steps: nat,
) -> bool
    decreases steps, 1nat,
{
    exists|after: Rows<'_>, next: Result<Option<&Row<'_>>, rusqlite::Error>|
        #[trigger] stepped(rows, after, next) && match next {
            Err(e) => r == Err::<Seq<T>, RuntimeError>(RuntimeError::Engine(e)),
            Ok(None) => r == Ok::<Seq<T>, RuntimeError>(taken),
            Ok(Some(row)) => if taken.len() >= usize::MAX {
                r == Err::<Seq<T>, RuntimeError>(RuntimeError::TooManyRows)
            } else {
                one_more(row, after, taken, r, steps)
            },
        }
}

/// Whether `r` is what a query for every row returns once the cursor, now
/// `after`, stands on `row`: what the record type makes of the row is
/// returned where it is an error, and is taken as the next record else.
pub open spec fn one_more<T: SqlResult>(
    row: &Row<'_>,
    after: Rows<'_>,
    taken: Seq<T>,
    r: Result<Seq<T>, RuntimeError>,
    steps: nat,
) -> bool
    decreases steps, 0nat,
{
    exists|outcome: Result<T, RuntimeError>|
        #[trigger] made(row, outcome) && match outcome {
            Err(e) => r == Err::<Seq<T>, RuntimeError>(e),
            Ok(record) => steps > 0 && every_row(
                after,
                taken.push(record),
                r,
                (steps - 1) as nat,
            ),
        }
}

/// The records of a result as a sequence.
pub open spec fn records_of<T>(r: Result<Vec<T>, RuntimeError>) -> Result<Seq<T>, RuntimeError> {
    match r {
        Ok(records) => Ok(records@),
        Err(e) => Err(e),
    }
}

/// Whether `r` is what a query for one row returns for the text `sql` and
/// the parameters `params` on the connection.
pub open spec fn selected_one<T: SqlResult>(
    connection: &Connection,
    sql: &str,
    params: &Vec<(String, Value)>,
    r: Result<T, RuntimeError>,
) -> bool {
    exists|cursor: Result<Rows<'_>, rusqlite::Error>|
        #[trigger] opened(connection, sql, params, cursor) && match cursor {
            Err(e) => r == Err::<T, RuntimeError>(RuntimeError::Engine(e)),
            Ok(rows) => only_row(rows, r),
        }
}

/// Whether `r` is what a query for every row returns from the cursor `rows`:
/// the records that the record type makes of its rows, in the order in which
/// the cursor gives them, or the first failure.
pub open spec fn all_rows<T: SqlResult>(rows: Rows<'_>, r: Result<Vec<T>, RuntimeError>) -> bool {
    exists|steps: nat| #[trigger] every_row(rows, Seq::<T>::empty(), records_of(r), steps)
}

/// Whether `r` is what a query for every row returns for the text `sql`
/// and the parameters `params` on the connection.
pub open spec fn selected_many<T: SqlResult>(
    connection: &Connection,
    sql: &str,
    params: &Vec<(String, Value)>,
    r: Result<Vec<T>, RuntimeError>,
) -> bool {
    exists|cursor: Result<Rows<'_>, rusqlite::Error>|
        #[trigger] opened(connection, sql, params, cursor) && match cursor {
            Err(e) => r == Err::<Vec<T>, RuntimeError>(RuntimeError::Engine(e)),
            Ok(rows) => all_rows(rows, r),
        }
}

/// Whether `r` is what the statement with the text `sql` returns as an
/// insert of the record: the row id that the engine generated where exactly
/// one row changed.
pub open spec fn inserted<T: SqlParam>(
    connection: &Connection,
    sql: &str,
    value: &T,
    r: Result<i64, RuntimeError>,
) -> bool {
    exists|outcome: Result<usize, RuntimeError>|
        #[trigger] ran(connection, sql, value, outcome) && match outcome {
            Err(e) => r == Err::<i64, RuntimeError>(e),
            Ok(changes) => exists|row_id: i64|
                #[trigger] generated(connection, row_id) && r == insert_result(changes, row_id),
        }
}

/// Whether everything that a query for every row can return from the cursor
/// `rows`, after the records `taken`, is something that it can return from
/// the cursor `start` with no record taken.
#[verifier::opaque]
spec fn resumes<T: SqlResult>(start: Rows<'_>, rows: Rows<'_>, taken: Seq<T>) -> bool {
    forall|r: Result<Seq<T>, RuntimeError>, n: nat| #[trigger]
        every_row(rows, taken, r, n) ==> every_row(start, Seq::<T>::empty(), r, n + taken.len())
}

/// A cursor resumes itself.
proof fn lemma_resumes_start<T: SqlResult>(start: Rows<'_>)
    ensures
        resumes::<T>(start, start, Seq::<T>::empty()),
{
    reveal(resumes);
}

/// One more record taken keeps the link to the start.
proof fn lemma_resumes_step<T: SqlResult>(
    start: Rows<'_>,
    rows: Rows<'_>,
    taken: Seq<T>,
    after: Rows<'_>,
    row: &Row<'_>,
    record: T,
)
    requires
        resumes(start, rows, taken),
        stepped(rows, after, Ok::<Option<&Row<'_>>, rusqlite::Error>(Some(row))),
        made(row, Ok::<T, RuntimeError>(record)),
        taken.len() < usize::MAX,
    ensures
        resumes(start, after, taken.push(record)),
{
    reveal(resumes);
    assert forall|r: Result<Seq<T>, RuntimeError>, n: nat| #[trigger]
        every_row(after, taken.push(record), r, n) implies every_row(
        start,
        Seq::<T>::empty(),
        r,
        n + taken.push(record).len(),
    ) by {
        let more = (n + 1) as nat;
        assert(one_more(row, after, taken, r, more));
        assert(every_row(rows, taken, r, more));
        assert(every_row(rows, taken, r, n + 1));
    }
}

/// What a query returns from where the cursor stands is what it returns from
/// the start.
proof fn lemma_resumes_end<T: SqlResult>(
    connection: &Connection,
    sql: &str,
    params: &Vec<(String, Value)>,
    start: Rows<'_>,
    rows: Rows<'_>,
    taken: Seq<T>,
    r: Result<Vec<T>, RuntimeError>,
)
    requires
        opened(connection, sql, params, Ok::<Rows<'_>, rusqlite::Error>(start)),
        resumes(start, rows, taken),
        every_row(rows, taken, records_of(r), 0),
    ensures
        selected_many(connection, sql, params, r),
{
    reveal(resumes);
    assert(every_row(start, Seq::<T>::empty(), records_of(r), 0 + taken.len()));
    assert(all_rows(start, r));
}

/// Prepares a statement and runs it with the parameters that the record
/// offers for it. Returns the number of rows changed.
fn run<T: SqlParam>(connection: &Connection, sql: &str, value: &T) -> (r: Result<
    usize,
    RuntimeError,
>)
    ensures
        ran(connection, sql, value, r),
        r matches Err(e) ==> e is Engine,
{
    let opened = prepare(connection, sql);
    assert(prepared(connection, sql, opened));
    let statement = match opened {
        Ok(statement) => statement,
        Err(e) => {
            return Err(RuntimeError::Engine(e));
        },
    };
    let params = value.to_named_params(&statement);
    assert(offered(value, &statement, params));
    let ghost used = statement;
    let outcome = execute(statement, &params);
    assert(executed(used, &params, outcome));
    match outcome {
        Ok(changes) => Ok(changes),
        Err(e) => Err(RuntimeError::Engine(e)),
    }
}

/// The operations on a connection of `rusqlite`.
impl BatiskafConnection for Connection {
    fn select_one<T: SqlResult>(&self, sql: &str, params: &Vec<(String, Value)>) -> (r: Result<
        T,
        RuntimeError,
    >)
        ensures
            selected_one(self, sql, params, r),
    {
        let prepared_statement = prepare(self, sql);
        assert(prepared(self, sql, prepared_statement));
        let mut statement = match prepared_statement {
            Ok(statement) => statement,
            Err(e) => {
                assert(opened(self, sql, params, Err::<Rows<'_>, rusqlite::Error>(e)));
                return Err(RuntimeError::Engine(e));
            },
        };
        let ghost fresh = statement;
        let cursor = query(&mut statement, params);
        assert(queried(fresh, params, cursor));
        assert(opened(self, sql, params, cursor));
        let rows = match cursor {
            Ok(rows) => rows,
            Err(e) => {
                return Err(RuntimeError::Engine(e));
            },
        };
        let ghost start = rows;
        let (rows, moved) = advance(rows);
        let ghost after = rows;
        match moved {
            Err(e) => {
                assert(stepped(start, after, Err::<Option<&Row<'_>>, rusqlite::Error>(e)));
                return Err(RuntimeError::Engine(e));
            },
            Ok(_) => {},
        }
        let standing = current(&rows);
        assert(stepped(start, after, Ok::<Option<&Row<'_>>, rusqlite::Error>(standing)));
        let record = match standing {
            None => {
                return single_row(None, false);
            },
            Some(row) => {
                let outcome = T::from_row(row);
                assert(made(row, outcome));
                match outcome {
                    Ok(record) => record,
                    Err(e) => {
                        return Err(e);
                    },
                }
            },
        };
        let (rows, moved) = advance(rows);
        let ghost last = rows;
        match moved {
            Err(e) => {
                assert(stepped(after, last, Err::<Option<&Row<'_>>, rusqlite::Error>(e)));
                Err(RuntimeError::Engine(e))
            },
            Ok(_) => {
                let following = current(&rows);
                assert(stepped(after, last, Ok::<Option<&Row<'_>>, rusqlite::Error>(following)));
                single_row(Some(record), following.is_some())
            },
        }
    }

    fn select_many<T: SqlResult>(&self, sql: &str, params: &Vec<(String, Value)>) -> (r: Result<
        Vec<T>,
        RuntimeError,
    >)
        ensures
            selected_many(self, sql, params, r),
    {
        let prepared_statement = prepare(self, sql);
        assert(prepared(self, sql, prepared_statement));
        let mut statement = match prepared_statement {
            Ok(statement) => statement,
            Err(e) => {
                assert(opened(self, sql, params, Err::<Rows<'_>, rusqlite::Error>(e)));
                return Err(RuntimeError::Engine(e));
            },
        };
        let ghost fresh = statement;
        let cursor = query(&mut statement, params);
        assert(queried(fresh, params, cursor));
        assert(opened(self, sql, params, cursor));
        let mut rows = match cursor {
            Ok(rows) => rows,
            Err(e) => {
                return Err(RuntimeError::Engine(e));
            },
        };
        let ghost start = rows;
        let mut records: Vec<T> = Vec::new();
        proof {
            lemma_resumes_start::<T>(start);
        }
        while records.len() < usize::MAX
            invariant
                opened(self, sql, params, Ok::<Rows<'_>, rusqlite::Error>(start)),
                resumes(start, rows, records@),
            decreases usize::MAX - records.len(),
        {
            let ghost before = rows;
            let ghost taken = records@;
            let (next, moved) = advance(rows);
            rows = next;
            match moved {
                Err(e) => {
                    proof {
                        assert(stepped(before, rows, Err::<Option<&Row<'_>>, rusqlite::Error>(e)));
                        lemma_resumes_end(
                            self,
                            sql,
                            params,
                            start,
                            before,
                            taken,
                            Err::<Vec<T>, RuntimeError>(RuntimeError::Engine(e)),
                        );
                    }
                    return Err(RuntimeError::Engine(e));
                },
                Ok(_) => {},
            }
            let standing = current(&rows);
            assert(stepped(before, rows, Ok::<Option<&Row<'_>>, rusqlite::Error>(standing)));
            match standing {
                None => {
                    proof {
                        lemma_resumes_end(
                            self,
                            sql,
                            params,
                            start,
                            before,
                            taken,
                            Ok::<Vec<T>, RuntimeError>(records),
                        );
                    }
                    return Ok(records);
                },
                Some(row) => {
                    let outcome = T::from_row(row);
                    assert(made(row, outcome));
                    match outcome {
                        Ok(record) => {
                            proof {
                                lemma_resumes_step(start, before, taken, rows, row, record);
                            }
                            records.push(record);
                        },
                        Err(e) => {
                            proof {
                                lemma_resumes_end(
                                    self,
                                    sql,
                                    params,
                                    start,
                                    before,
                                    taken,
                                    Err::<Vec<T>, RuntimeError>(e),
                                );
                            }
                            return Err(e);
                        },
                    }
                },
            }
        }
        let ghost before = rows;
        let (rows, moved) = advance(rows);
        match moved {
            Err(e) => {
                proof {
                    assert(stepped(before, rows, Err::<Option<&Row<'_>>, rusqlite::Error>(e)));
                    lemma_resumes_end(
                        self,
                        sql,
                        params,
                        start,
                        before,
                        records@,
                        Err::<Vec<T>, RuntimeError>(RuntimeError::Engine(e)),
                    );
                }
                Err(RuntimeError::Engine(e))
            },
            Ok(_) => {
                let standing = current(&rows);
                assert(stepped(before, rows, Ok::<Option<&Row<'_>>, rusqlite::Error>(standing)));
                match standing {
                    None => {
                        proof {
                            lemma_resumes_end(
                                self,
                                sql,
                                params,
                                start,
                                before,
                                records@,
                                Ok::<Vec<T>, RuntimeError>(records),
                            );
                        }
                        Ok(records)
                    },
                    Some(_) => {
                        proof {
                            lemma_resumes_end(
                                self,
                                sql,
                                params,
                                start,
                                before,
                                records@,
                                Err::<Vec<T>, RuntimeError>(RuntimeError::TooManyRows),
                            );
                        }
                        Err(RuntimeError::TooManyRows)
                    },
                }
            },
        }
    }

    fn insert<T: SqlInsert + SqlParam>(&self, table: &str, value: &T) -> (r: Result<
        i64,
        RuntimeError,
    >)
        ensures
            exists|sql: String, text: &str|
                #![trigger call_ensures(T::insert_statement, (table,), sql), inserted(self, text, value, r)]
                call_ensures(T::insert_statement, (table,), sql) && text@ == sql@ && inserted(
                    self,
                    text,
                    value,
                    r,
                ),
    {
        let sql = T::insert_statement(table);
        let text = sql.as_str();
        let outcome = run(self, text, value);
        let r = match outcome {
            Ok(changes) => {
                let row_id = last_insert_rowid(self);
                assert(generated(self, row_id));
                insert_outcome(changes, row_id)
            },
            Err(e) => Err(e),
        };
        assert(inserted(self, text, value, r));
        r
    }

    fn update<T: SqlUpdate + SqlParam>(&self, table: &str, value: &T) -> (r: Result<
        usize,
        RuntimeError,
    >)
        ensures
            exists|sql: String, text: &str|
                #![trigger call_ensures(T::update_statement, (table,), sql), ran(self, text, value, r)]
                call_ensures(T::update_statement, (table,), sql) && text@ == sql@ && ran(
                    self,
                    text,
                    value,
                    r,
                ),
    {
        let sql = T::update_statement(table);
        run(self, sql.as_str(), value)
    }

    fn delete<T: SqlDelete + SqlParam>(&self, table: &str, value: &T) -> (r: Result<
        usize,
        RuntimeError,
    >)
        ensures
            exists|sql: String, text: &str|
                #![trigger call_ensures(T::delete_statement, (table,), sql), ran(self, text, value, r)]
                call_ensures(T::delete_statement, (table,), sql) && text@ == sql@ && ran(
                    self,
                    text,
                    value,
                    r,
                ),
    {
        let sql = T::delete_statement(table);
        run(self, sql.as_str(), value)
    }
}

} // verus!
