//! The delete generator.
//!
//! `DELETE FROM {table} WHERE k1 = :k1 AND k2 = :k2 ...` over the
//! primary-key columns that are not skipped, in schema order. A schema needs
//! at least one.

use crate::column::{columns, resolved, RecordSchema, RecordSchemaView};
use crate::definition::{TypeDefinition, TypeDefinitionView};
use crate::error::{SchemaError, SchemaErrorView};
use crate::statement::{clauses, listed, selected, Form, GeneratedStatement, GeneratedStatementView,
    Selection};
use crate::text::{join_strings, texts};
use vstd::prelude::*;

verus! {

/// The delete statement of a schema.
pub open spec fn delete_statement(schema: RecordSchemaView) -> Result<
    GeneratedStatementView,
    SchemaErrorView,
> {
    if selected(schema.columns, Selection::Keys).len() == 0 {
        Err(SchemaErrorView::MissingPrimaryKey { record: schema.record })
    } else {
        Ok(
            GeneratedStatementView {
                head: "DELETE FROM "@,
                tail: " WHERE "@ + listed(
                    schema.columns,
                    Selection::Keys,
                    Form::Assignment,
                    " AND "@,
                ),
            },
        )
    }
}

/// The delete statement of a declaration, or the error of its resolution or
/// generation.
pub open spec fn derived(def: TypeDefinitionView) -> Result<
    GeneratedStatementView,
    SchemaErrorView,
> {
    match resolved(def) {
        Ok(schema) => delete_statement(schema),
        Err(e) => Err(e),
    }
}

/// Generates the delete statement of a schema.
pub fn generate(schema: &RecordSchema) -> (r: Result<GeneratedStatement, SchemaError>)
    ensures
        match r {
            Ok(statement) => delete_statement(schema@) == Ok::<
                GeneratedStatementView,
                SchemaErrorView,
            >(statement@),
            Err(e) => delete_statement(schema@) == Err::<GeneratedStatementView, SchemaErrorView>(
                e@,
            ),
        },
{
    let keys = clauses(schema, Selection::Keys, Form::Assignment);
    assert(texts(keys@).len() == keys@.len());
    if keys.len() == 0 {
        return Err(SchemaError::MissingPrimaryKey { record: schema.record().clone() });
    }
    let mut tail = String::from_str(" WHERE ");
    tail.append(join_strings(&keys, " AND ").as_str());
    Ok(GeneratedStatement::new(String::from_str("DELETE FROM "), tail))
}

/// Resolves a declaration and generates its delete statement.
pub fn derive(input: &TypeDefinition) -> (r: Result<GeneratedStatement, SchemaError>)
    ensures
        match r {
            Ok(statement) => derived(input@) == Ok::<GeneratedStatementView, SchemaErrorView>(
                statement@,
            ),
            Err(e) => derived(input@) == Err::<GeneratedStatementView, SchemaErrorView>(e@),
        },
{
    match columns(input) {
        Ok(schema) => generate(&schema),
        Err(e) => Err(e),
    }
}

} // verus!
