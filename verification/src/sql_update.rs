//! The update generator.
//!
//! `UPDATE {table} SET v1 = :v1, v2 = :v2, ... WHERE k1 = :k1 AND k2 = :k2 ...`
//! over the columns that are not skipped: those outside the primary key are
//! set, those of the primary key are compared. Both groups keep schema order.
//! A schema needs at least one column of each group.

use crate::column::{columns, resolved, RecordSchema, RecordSchemaView};
use crate::definition::{TypeDefinition, TypeDefinitionView};
use crate::error::{SchemaError, SchemaErrorView};
use crate::statement::{clauses, clauses_of, listed, Form, GeneratedStatement,
    GeneratedStatementView, Selection};
use crate::text::{join_strings, texts};
use vstd::prelude::*;

verus! {

/// The assignments of the `SET` clause, in schema order.
pub open spec fn set_clauses(schema: RecordSchemaView) -> Seq<Seq<char>> {
    clauses_of(schema.columns, Selection::Values, Form::Assignment)
}

/// The predicates of the `WHERE` clause, in schema order.
pub open spec fn where_predicates(schema: RecordSchemaView) -> Seq<Seq<char>> {
    clauses_of(schema.columns, Selection::Keys, Form::Assignment)
}

/// The update statement of a schema. A schema without a column to set is
/// reported before one without a primary key.
pub open spec fn update_statement(schema: RecordSchemaView) -> Result<
    GeneratedStatementView,
    SchemaErrorView,
> {
    if set_clauses(schema).len() == 0 {
        Err(SchemaErrorView::MissingUpdatableColumn { record: schema.record })
    } else if where_predicates(schema).len() == 0 {
        Err(SchemaErrorView::MissingPrimaryKey { record: schema.record })
    } else {
        Ok(
            GeneratedStatementView {
                head: "UPDATE "@,
                tail: " SET "@ + listed(
                    schema.columns,
                    Selection::Values,
                    Form::Assignment,
                    ", "@,
                ) + " WHERE "@ + listed(
                    schema.columns,
                    Selection::Keys,
                    Form::Assignment,
                    " AND "@,
                ),
            },
        )
    }
}

/// The update statement of a declaration, or the error of its resolution or
/// generation.
pub open spec fn derived(def: TypeDefinitionView) -> Result<
    GeneratedStatementView,
    SchemaErrorView,
> {
    match resolved(def) {
        Ok(schema) => update_statement(schema),
        Err(e) => Err(e),
    }
}

/// Generates the update statement of a schema.
pub fn generate(schema: &RecordSchema) -> (r: Result<GeneratedStatement, SchemaError>)
    ensures
        match r {
            Ok(statement) => update_statement(schema@) == Ok::<
                GeneratedStatementView,
                SchemaErrorView,
            >(statement@),
            Err(e) => update_statement(schema@) == Err::<GeneratedStatementView, SchemaErrorView>(
                e@,
            ),
        },
{
    let values = clauses(schema, Selection::Values, Form::Assignment);
    let keys = clauses(schema, Selection::Keys, Form::Assignment);
    assert(texts(values@).len() == values@.len());
    assert(texts(keys@).len() == keys@.len());
    if values.len() == 0 {
        return Err(SchemaError::MissingUpdatableColumn { record: schema.record().clone() });
    }
    if keys.len() == 0 {
        return Err(SchemaError::MissingPrimaryKey { record: schema.record().clone() });
    }
    let mut tail = String::from_str(" SET ");
    tail.append(join_strings(&values, ", ").as_str());
    tail.append(" WHERE ");
    tail.append(join_strings(&keys, " AND ").as_str());
    Ok(GeneratedStatement::new(String::from_str("UPDATE "), tail))
}

/// Resolves a declaration and generates its update statement.
pub fn derive(input: &TypeDefinition) -> (r: Result<GeneratedStatement, SchemaError>)
    ensures
        match r {
            Ok(statement) => derived(input@) == Ok::<GeneratedStatementView, SchemaErrorView>(
                statement@,
            ),
            Err(e) => derived(input@) == Err::<GeneratedStatementView, SchemaErrorView>(e@),
        },
{
    match columns(input) {
        Ok(schema) => generate(&schema),
        Err(e) => Err(e),
    }
}

} // verus!
