//! A schema-driven compiler of SQL statements and mapper of rows.
//!
//! A record type is declared as a [`definition::TypeDefinition`]: its fields
//! in order, with the directives written on them. From it the library
//! derives, once per type, the text of the insert, update, delete and upsert
//! statements, a binder that hands a record's fields to a prepared statement,
//! and a mapper that rebuilds a record from a result row. The operations of
//! [`connection::BatiskafConnection`] run them on an open connection.

use vstd::prelude::*;

pub mod column;
pub mod connection;
pub mod definition;
pub mod directive;
pub mod engine;
pub mod error;
pub mod laws;
pub mod sql_delete;
pub mod sql_insert;
pub mod sql_param;
pub mod sql_result;
pub mod sql_update;
pub mod sql_upsert;
pub mod statement;
pub mod text;

pub use connection::{
    BatiskafConnection, SqlDelete, SqlInsert, SqlParam, SqlResult, SqlUpdate, SqlUpsert,
};
pub use definition::TypeDefinition;
pub use error::{RuntimeError, SchemaError};
pub use sql_param::ParamBinder;
pub use sql_result::RowMapper;
pub use statement::GeneratedStatement;

verus! {

/// Derives the binder of a record type from its declaration.
pub fn derive_sql_param(input: &TypeDefinition) -> (r: Result<ParamBinder, SchemaError>)
    ensures
        match r {
            Ok(binder) => sql_param::derived(input@) == Ok::<
                sql_param::ParamBinderView,
                error::SchemaErrorView,
            >(binder@),
            Err(e) => sql_param::derived(input@) == Err::<
                sql_param::ParamBinderView,
                error::SchemaErrorView,
            >(e@),
        },
{
    sql_param::derive(input)
}

/// Derives the row mapper of a record type from its declaration.
pub fn derive_sql_result(input: &TypeDefinition) -> (r: Result<RowMapper, SchemaError>)
    ensures
        match r {
            Ok(mapper) => sql_result::derived(input@) == Ok::<
                sql_result::RowMapperView,
                error::SchemaErrorView,
            >(mapper@),
            Err(e) => sql_result::derived(input@) == Err::<
                sql_result::RowMapperView,
                error::SchemaErrorView,
            >(e@),
        },
{
    sql_result::derive(input)
}

/// Derives the insert statement of a record type from its declaration.
pub fn derive_sql_insert(input: &TypeDefinition) -> (r: Result<GeneratedStatement, SchemaError>)
    ensures
        match r {
            Ok(statement) => sql_insert::derived(input@) == Ok::<
                statement::GeneratedStatementView,
                error::SchemaErrorView,
            >(statement@),
            Err(e) => sql_insert::derived(input@) == Err::<
                statement::GeneratedStatementView,
                error::SchemaErrorView,
            >(e@),
        },
{
    sql_insert::derive(input)
}

/// Derives the update statement of a record type from its declaration.
pub fn derive_sql_update(input: &TypeDefinition) -> (r: Result<GeneratedStatement, SchemaError>)
    ensures
        match r {
            Ok(statement) => sql_update::derived(input@) == Ok::<
                statement::GeneratedStatementView,
                error::SchemaErrorView,
            >(statement@),
            Err(e) => sql_update::derived(input@) == Err::<
                statement::GeneratedStatementView,
                error::SchemaErrorView,
            >(e@),
        },
{
    sql_update::derive(input)
}

/// Derives the delete statement of a record type from its declaration.
pub fn derive_sql_delete(input: &TypeDefinition) -> (r: Result<GeneratedStatement, SchemaError>)
    ensures
        match r {
            Ok(statement) => sql_delete::derived(input@) == Ok::<
                statement::GeneratedStatementView,
                error::SchemaErrorView,
            >(statement@),
            Err(e) => sql_delete::derived(input@) == Err::<
                statement::GeneratedStatementView,
                error::SchemaErrorView,
            >(e@),
        },
{
    sql_delete::derive(input)
}

/// Derives the upsert statement of a record type from its declaration.
pub fn derive_sql_upsert(input: &TypeDefinition) -> (r: Result<GeneratedStatement, SchemaError>)
    ensures
        match r {
            Ok(statement) => sql_upsert::derived(input@) == Ok::<
                statement::GeneratedStatementView,
                error::SchemaErrorView,
            >(statement@),
            Err(e) => sql_upsert::derived(input@) == Err::<
                statement::GeneratedStatementView,
                error::SchemaErrorView,
            >(e@),
        },
{
    sql_upsert::derive(input)
}

} // verus!
