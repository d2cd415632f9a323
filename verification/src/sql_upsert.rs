//! The upsert generator.
//!
//! An insert over every column that is not skipped, followed by a conflict
//! clause on the primary-key columns: on conflict the columns outside the key
//! take the values that the insert proposed, or, where there is no such
//! column, nothing is done. A schema needs at least one primary-key column.

use crate::column::{columns, resolved, RecordSchema, RecordSchemaView};
use crate::definition::{TypeDefinition, TypeDefinitionView};
use crate::error::{SchemaError, SchemaErrorView};
use crate::statement::{clauses, list, listed, selected, Form, GeneratedStatement,
    GeneratedStatementView, Selection};
use crate::text::{join_strings, texts};
use vstd::prelude::*;

verus! {

/// What the statement does on a conflict.
pub open spec fn conflict_action(schema: RecordSchemaView) -> Seq<char> {
    if selected(schema.columns, Selection::Values).len() == 0 {
        " DO NOTHING"@
    } else {
        " DO UPDATE SET "@ + listed(schema.columns, Selection::Values, Form::Excluded, ", "@)
    }
}

/// The text of the statement after the table name.
pub open spec fn upsert_tail(schema: RecordSchemaView) -> Seq<char> {
    " ("@ + listed(schema.columns, Selection::Active, Form::Name, ", "@) + ") VALUES ("@ + listed(
        schema.columns,
        Selection::Active,
        Form::Placeholder,
        ", "@,
    ) + ") ON CONFLICT ("@ + listed(schema.columns, Selection::Keys, Form::Name, ", "@) + ")"@
        + conflict_action(schema)
}

/// The upsert statement of a schema.
pub open spec fn upsert_statement(schema: RecordSchemaView) -> Result<
    GeneratedStatementView,
    SchemaErrorView,
> {
    if selected(schema.columns, Selection::Keys).len() == 0 {
        Err(SchemaErrorView::MissingPrimaryKey { record: schema.record })
    } else {
        Ok(GeneratedStatementView { head: "INSERT INTO "@, tail: upsert_tail(schema) })
    }
}

/// The upsert statement of a declaration, or the error of its resolution or
/// generation.
pub open spec fn derived(def: TypeDefinitionView) -> Result<
    GeneratedStatementView,
    SchemaErrorView,
> {
    match resolved(def) {
        Ok(schema) => upsert_statement(schema),
        Err(e) => Err(e),
    }
}

/// Generates the upsert statement of a schema.
pub fn generate(schema: &RecordSchema) -> (r: Result<GeneratedStatement, SchemaError>)
    ensures
        match r {
            Ok(statement) => upsert_statement(schema@) == Ok::<
                GeneratedStatementView,
                SchemaErrorView,
            >(statement@),
            Err(e) => upsert_statement(schema@) == Err::<GeneratedStatementView, SchemaErrorView>(
                e@,
            ),
        },
{
    let names = list(schema, Selection::Active, Form::Name, ", ");
    let params = list(schema, Selection::Active, Form::Placeholder, ", ");
    let keys = clauses(schema, Selection::Keys, Form::Name);
    let values = clauses(schema, Selection::Values, Form::Excluded);
    assert(texts(keys@).len() == keys@.len());
    assert(texts(values@).len() == values@.len());
    if keys.len() == 0 {
        return Err(SchemaError::MissingPrimaryKey { record: schema.record().clone() });
    }
    let mut tail = String::from_str(" (");
    tail.append(names.as_str());
    tail.append(") VALUES (");
    tail.append(params.as_str());
    tail.append(") ON CONFLICT (");
    tail.append(join_strings(&keys, ", ").as_str());
    tail.append(")");
    if values.len() == 0 {
        tail.append(" DO NOTHING");
    } else {
        tail.append(" DO UPDATE SET ");
        tail.append(join_strings(&values, ", ").as_str());
    }
    assert(tail@ =~= upsert_tail(schema@));
    Ok(GeneratedStatement::new(String::from_str("INSERT INTO "), tail))
}

/// Resolves a declaration and generates its upsert statement.
pub fn derive(input: &TypeDefinition) -> (r: Result<GeneratedStatement, SchemaError>)
    ensures
        match r {
            Ok(statement) => derived(input@) == Ok::<GeneratedStatementView, SchemaErrorView>(
                statement@,
            ),
            Err(e) => derived(input@) == Err::<GeneratedStatementView, SchemaErrorView>(e@),
        },
{
    match columns(input) {
        Ok(schema) => generate(&schema),
        Err(e) => Err(e),
    }
}

} // verus!
