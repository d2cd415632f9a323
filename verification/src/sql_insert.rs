//! The insert generator.
//!
//! `INSERT INTO {table} (c1, c2, ...) VALUES (:c1, :c2, ...)` over the
//! columns that are neither skipped nor generated by the storage engine, in
//! schema order. A schema without such a column still gives a statement, with
//! both lists empty.

use crate::column::{columns, resolved, ColumnSpecView, RecordSchema};
use crate::definition::{TypeDefinition, TypeDefinitionView};
use crate::error::{SchemaError, SchemaErrorView};
use crate::statement::{list, listed, Form, GeneratedStatement, GeneratedStatementView, Selection};
use vstd::prelude::*;

verus! {

/// The insert statement of a list of columns.
pub open spec fn insert_statement(columns: Seq<ColumnSpecView>) -> GeneratedStatementView {
    GeneratedStatementView {
        head: "INSERT INTO "@,
        tail: " ("@ + listed(columns, Selection::Insertable, Form::Name, ", "@) + ") VALUES ("@
            + listed(columns, Selection::Insertable, Form::Placeholder, ", "@) + ")"@,
    }
}

/// The insert statement of a declaration, or the error of its resolution.
pub open spec fn derived(def: TypeDefinitionView) -> Result<
    GeneratedStatementView,
    SchemaErrorView,
> {
    match resolved(def) {
        Ok(schema) => Ok(insert_statement(schema.columns)),
        Err(e) => Err(e),
    }
}

/// Generates the insert statement of a schema.
pub fn generate(schema: &RecordSchema) -> (statement: GeneratedStatement)
    ensures
        statement@ == insert_statement(schema@.columns),
{
    let names = list(schema, Selection::Insertable, Form::Name, ", ");
    let params = list(schema, Selection::Insertable, Form::Placeholder, ", ");
    let mut tail = String::from_str(" (");
    tail.append(names.as_str());
    tail.append(") VALUES (");
    tail.append(params.as_str());
    tail.append(")");
    GeneratedStatement::new(String::from_str("INSERT INTO "), tail)
}

/// Resolves a declaration and generates its insert statement.
pub fn derive(input: &TypeDefinition) -> (r: Result<GeneratedStatement, SchemaError>)
    ensures
        match r {
            Ok(statement) => derived(input@) == Ok::<GeneratedStatementView, SchemaErrorView>(
                statement@,
            ),
            Err(e) => derived(input@) == Err::<GeneratedStatementView, SchemaErrorView>(e@),
        },
{
    match columns(input) {
        Ok(schema) => Ok(generate(&schema)),
        Err(e) => Err(e),
    }
}

} // verus!
