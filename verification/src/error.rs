//! The errors of schema resolution and statement generation.

use vstd::prelude::*;

verus! {

/// Why a record type cannot be resolved or a statement cannot be generated
/// for it. Every variant names the offending type.
#[derive(Debug, Clone, PartialEq, Eq)]
pub enum SchemaError {
    /// An attribute item is not one of the directives, or has the wrong shape.
    UnknownDirective { record: String, directive: String },
    /// Two fields resolve to the same column name.
    DuplicateColumn { record: String, column: String },
    /// A field is skipped in row mapping but has no default to fall back on.
    SkipWithoutDefault { record: String, field: String },
    /// No column that takes part in the statement is a primary key.
    MissingPrimaryKey { record: String },
    /// No column that takes part in an update is outside the primary key.
    MissingUpdatableColumn { record: String },
}

pub enum SchemaErrorView {
    UnknownDirective { record: Seq<char>, directive: Seq<char> },
    DuplicateColumn { record: Seq<char>, column: Seq<char> },
    SkipWithoutDefault { record: Seq<char>, field: Seq<char> },
    MissingPrimaryKey { record: Seq<char> },
    MissingUpdatableColumn { record: Seq<char> },
}

impl View for SchemaError {
    type V = SchemaErrorView;

    open spec fn view(&self) -> SchemaErrorView {
        match self {
            SchemaError::UnknownDirective { record, directive } => {
                SchemaErrorView::UnknownDirective { record: record@, directive: directive@ }
            },
            SchemaError::DuplicateColumn { record, column } => SchemaErrorView::DuplicateColumn {
                record: record@,
                column: column@,
            },
            SchemaError::SkipWithoutDefault { record, field } => {
                SchemaErrorView::SkipWithoutDefault { record: record@, field: field@ }
            },
            SchemaError::MissingPrimaryKey { record } => SchemaErrorView::MissingPrimaryKey {
                record: record@,
            },
            SchemaError::MissingUpdatableColumn { record } => {
                SchemaErrorView::MissingUpdatableColumn { record: record@ }
            },
        }
    }
}

/// The text of the message for a schema error: the type, then the rule that
/// it breaks.
pub open spec fn message_text(e: SchemaErrorView) -> Seq<char> {
    match e {
        SchemaErrorView::UnknownDirective { record, directive } => "struct "@ + record
            + " has unknown attribute `"@ + directive + "`"@,
        SchemaErrorView::DuplicateColumn { record, column } => "struct "@ + record
            + " maps more than one field to column `"@ + column + "`"@,
        SchemaErrorView::SkipWithoutDefault { record, field } => "struct "@ + record
            + " field "@ + field + " with `skip` attribute must have `default` attribute"@,
        SchemaErrorView::MissingPrimaryKey { record } => "struct "@ + record
            + " must contain `primary_key` field"@,
        SchemaErrorView::MissingUpdatableColumn { record } => "struct "@ + record
            + " must contain non `primary_key` field"@,
    }
}

/// Why an operation on an open connection failed.
#[derive(Debug, PartialEq)]
pub enum RuntimeError {
    /// A column that a field is read from is absent from the result, and the
    /// field has no default: the query does not fit the schema.
    MissingColumn(rusqlite::Error),
    /// A column is present but its value cannot be taken out.
    InvalidValue(rusqlite::Error),
    /// The storage engine failed to prepare or to run a statement.
    Engine(rusqlite::Error),
    /// An insert changed this number of rows, which is not one.
    ChangedRows(usize),
    /// A query for one row found none.
    NoRows,
    /// A query for one row found more than one.
    MoreThanOneRow,
    /// A query returned more rows than a vector can hold.
    TooManyRows,
}

impl SchemaError {
    /// The message to show for this error.
    pub fn message(&self) -> (text: String)
        ensures
            text@ == message_text(self@),
    {
        let mut text = String::from_str("struct ");
        match self {
            SchemaError::UnknownDirective { record, directive } => {
                text.append(record.as_str());
                text.append(" has unknown attribute `");
                text.append(directive.as_str());
                text.append("`");
            },
            SchemaError::DuplicateColumn { record, column } => {
                text.append(record.as_str());
                text.append(" maps more than one field to column `");
                text.append(column.as_str());
                text.append("`");
            },
            SchemaError::SkipWithoutDefault { record, field } => {
                text.append(record.as_str());
                text.append(" field ");
                text.append(field.as_str());
                text.append(" with `skip` attribute must have `default` attribute");
            },
            SchemaError::MissingPrimaryKey { record } => {
                text.append(record.as_str());
                text.append(" must contain `primary_key` field");
            },
            SchemaError::MissingUpdatableColumn { record } => {
                text.append(record.as_str());
                text.append(" must contain non `primary_key` field");
            },
        }
        text
    }
}

} // verus!
