//! The column resolver: from the declaration of a record type to its schema,
//! the ordered list of column specifications.
//!
//! The column of a field is named by the field's `column` directive, or,
//! without one, by the field's identifier in ASCII lower case. Resolution
//! fails on an attribute item that is no directive, and on a column name that
//! an earlier field already has. The first field at fault decides the error.

use crate::definition::{FieldDefinitionView, TypeDefinition, TypeDefinitionView};
use crate::directive::{all_known, collected, directive_of, first_unknown, has_flag, parse_attributes,
    rename_of};
use crate::error::{SchemaError, SchemaErrorView};
use crate::text::{ascii_lowercase, lower, same_text};
use vstd::prelude::*;

verus! {

/// How one field of a record maps to one column.
#[derive(Debug, Clone, PartialEq, Eq)]
pub struct ColumnSpec {
    source_field: String,
    column_name: String,
    primary_key: bool,
    autogenerated: bool,
    skip: bool,
    default_on_missing: bool,
}

pub struct ColumnSpecView {
    pub source_field: Seq<char>,
    pub column_name: Seq<char>,
    pub primary_key: bool,
    pub autogenerated: bool,
    pub skip: bool,
    pub default_on_missing: bool,
}

impl View for ColumnSpec {
    type V = ColumnSpecView;

    closed spec fn view(&self) -> ColumnSpecView {
        ColumnSpecView {
            source_field: self.source_field@,
            column_name: self.column_name@,
            primary_key: self.primary_key,
            autogenerated: self.autogenerated,
            skip: self.skip,
            default_on_missing: self.default_on_missing,
        }
    }
}

impl ColumnSpec {
    /// The name of the column.
    pub fn name(&self) -> (name: &String)
        ensures
            name@ == self@.column_name,
    {
        &self.column_name
    }

    /// The identifier of the field that the column belongs to.
    pub fn source_field(&self) -> (ident: &String)
        ensures
            ident@ == self@.source_field,
    {
        &self.source_field
    }

    /// Whether the column is part of the primary key.
    pub fn primary_key(&self) -> (b: bool)
        ensures
            b == self@.primary_key,
    {
        self.primary_key
    }

    /// Whether the storage engine generates the column's value on insert.
    pub fn autogenerated(&self) -> (b: bool)
        ensures
            b == self@.autogenerated,
    {
        self.autogenerated
    }

    /// Whether the field takes no part in statements and row mapping.
    pub fn skip(&self) -> (b: bool)
        ensures
            b == self@.skip,
    {
        self.skip
    }

    /// Whether the field falls back to its default when the column is absent.
    pub fn default(&self) -> (b: bool)
        ensures
            b == self@.default_on_missing,
    {
        self.default_on_missing
    }
}

/// The views of a sequence of column specifications, in order.
pub open spec fn column_views(columns: Seq<ColumnSpec>) -> Seq<ColumnSpecView> {
    Seq::new(columns.len(), |i: int| columns[i]@)
}

/// The resolved columns of one record type, in field order.
#[derive(Debug, Clone, PartialEq, Eq)]
pub struct RecordSchema {
    record: String,
    columns: Vec<ColumnSpec>,
    default_on_missing: bool,
}

pub struct RecordSchemaView {
    pub record: Seq<char>,
    pub columns: Seq<ColumnSpecView>,
    pub default_on_missing: bool,
}

impl RecordSchemaView {
    /// No two columns have the same name.
    pub open spec fn wf(self) -> bool {
        forall|i: int, j: int|
            0 <= i < j < self.columns.len() ==> (#[trigger] self.columns[i]).column_name != (
            #[trigger] self.columns[j]).column_name
    }
}

impl View for RecordSchema {
    type V = RecordSchemaView;

    closed spec fn view(&self) -> RecordSchemaView {
        RecordSchemaView {
            record: self.record@,
            columns: column_views(self.columns@),
            default_on_missing: self.default_on_missing,
        }
    }
}

impl RecordSchema {
    /// The name of the record type.
    pub fn record(&self) -> (name: &String)
        ensures
            name@ == self@.record,
    {
        &self.record
    }

    /// The columns, in field order.
    pub fn columns(&self) -> (columns: &Vec<ColumnSpec>)
        ensures
            column_views(columns@) == self@.columns,
    {
        &self.columns
    }

    /// Whether every field of the type falls back to its default.
    pub fn default(&self) -> (b: bool)
        ensures
            b == self@.default_on_missing,
    {
        self.default_on_missing
    }
}

/// Whether the type itself carries the `default` directive.
pub open spec fn type_default(def: TypeDefinitionView) -> bool {
    has_flag(collected(def.attrs), "default"@)
}

/// The name of a field's column: its rename, else its identifier in lower
/// case.
pub open spec fn column_name_of(field: FieldDefinitionView) -> Seq<char> {
    match rename_of(collected(field.attrs)) {
        Some(name) => name,
        None => lower(field.ident),
    }
}

/// The column specification of a field whose attributes are all directives.
pub open spec fn column_of(field: FieldDefinitionView, type_default: bool) -> ColumnSpecView {
    let d = directive_of(collected(field.attrs));
    ColumnSpecView {
        source_field: field.ident,
        column_name: column_name_of(field),
        primary_key: d.primary_key,
        autogenerated: d.autogenerated,
        skip: d.skip,
        default_on_missing: d.default_on_missing || type_default,
    }
}

/// Whether an earlier field than `i` has the column name of field `i`.
pub open spec fn name_taken(def: TypeDefinitionView, i: int) -> bool {
    exists|j: int|
        0 <= j < i && column_name_of(#[trigger] def.fields[j]) == column_name_of(def.fields[i])
}

/// What is wrong with field `i`, if anything.
pub open spec fn field_problem(def: TypeDefinitionView, i: int) -> Option<SchemaErrorView> {
    let items = collected(def.fields[i].attrs);
    if !all_known(items) {
        Some(
            SchemaErrorView::UnknownDirective { record: def.ident, directive: first_unknown(items) },
        )
    } else if name_taken(def, i) {
        Some(
            SchemaErrorView::DuplicateColumn {
                record: def.ident,
                column: column_name_of(def.fields[i]),
            },
        )
    } else {
        None
    }
}

/// Whether field `i` is the first field at fault.
pub open spec fn first_problem_at(def: TypeDefinitionView, i: int) -> bool {
    &&& 0 <= i < def.fields.len()
    &&& field_problem(def, i) is Some
    &&& forall|j: int| 0 <= j < i ==> (#[trigger] field_problem(def, j)) is None
}

/// The columns of a declaration, each field resolved on its own.
pub open spec fn columns_of(def: TypeDefinitionView) -> Seq<ColumnSpecView> {
    Seq::new(def.fields.len(), |i: int| column_of(def.fields[i], type_default(def)))
}

/// The schema of a declaration, or the error of its first fault: a fault in
/// the attributes of the type comes before those of the fields.
pub open spec fn resolved(def: TypeDefinitionView) -> Result<RecordSchemaView, SchemaErrorView> {
    let items = collected(def.attrs);
    if !all_known(items) {
        Err(SchemaErrorView::UnknownDirective { record: def.ident, directive: first_unknown(items) })
    } else if exists|i: int| first_problem_at(def, i) {
        Err(field_problem(def, choose|i: int| first_problem_at(def, i))->0)
    } else {
        Ok(
            RecordSchemaView {
                record: def.ident,
                columns: columns_of(def),
                default_on_missing: type_default(def),
            },
        )
    }
}

/// There is at most one first field at fault.
proof fn lemma_first_problem_unique(def: TypeDefinitionView, i: int)
    requires
        first_problem_at(def, i),
    ensures
        (choose|k: int| first_problem_at(def, k)) == i,
{
    let c = choose|k: int| first_problem_at(def, k);
    assert(first_problem_at(def, c));
    if c < i {
        assert(field_problem(def, c) is None);
    } else if i < c {
        assert(field_problem(def, i) is None);
    }
}

/// A resolved schema has no two columns of the same name.
pub proof fn lemma_resolved_wf(def: TypeDefinitionView)
    ensures
        resolved(def) matches Ok(schema) ==> schema.wf(),
{
    if let Ok(schema) = resolved(def) {
        assert forall|i: int, j: int| 0 <= i < j < schema.columns.len() implies (
        #[trigger] schema.columns[i]).column_name != (#[trigger] schema.columns[j]).column_name by {
            if schema.columns[i].column_name == schema.columns[j].column_name {
                assert(column_name_of(def.fields[i]) == column_name_of(def.fields[j]));
                assert(name_taken(def, j));
                lemma_some_first_problem(def, j);
            }
        }
    }
}

/// Where some field is at fault, some field is the first at fault.
proof fn lemma_some_first_problem(def: TypeDefinitionView, i: int)
    requires
        0 <= i < def.fields.len(),
        field_problem(def, i) is Some,
    ensures
        exists|k: int| first_problem_at(def, k),
    decreases i,
{
    if exists|j: int| 0 <= j < i && (#[trigger] field_problem(def, j)) is Some {
        let j = choose|j: int| 0 <= j < i && (#[trigger] field_problem(def, j)) is Some;
        lemma_some_first_problem(def, j);
    } else {
        assert(first_problem_at(def, i));
    }
}

/// Resolves the declaration of a record type into its schema.
pub fn columns(input: &TypeDefinition) -> (r: Result<RecordSchema, SchemaError>)
    ensures
        match r {
            Ok(schema) => resolved(input@) == Ok::<RecordSchemaView, SchemaErrorView>(schema@)
                && schema@.wf(),
            Err(e) => resolved(input@) == Err::<RecordSchemaView, SchemaErrorView>(e@),
        },
{
    let type_default = match parse_attributes(&input.attrs) {
        Ok(d) => d.default_on_missing,
        Err(name) => {
            return Err(SchemaError::UnknownDirective { record: input.ident.clone(), directive: name });
        },
    };
    let ghost def = input@;
    let mut columns: Vec<ColumnSpec> = Vec::new();
    let mut i: usize = 0;
    while i < input.fields.len()
        invariant
            i <= input.fields.len(),
            def == input@,
            all_known(collected(def.attrs)),
            type_default == self::type_default(def),
            columns@.len() == i,
            forall|k: int| 0 <= k < i ==> (#[trigger] columns@[k])@ == column_of(
                def.fields[k],
                type_default,
            ),
            forall|k: int| 0 <= k < i ==> (#[trigger] field_problem(def, k)) is None,
        decreases input.fields.len() - i,
    {
        let field = &input.fields[i];
        assert(field@ == def.fields[i as int]);
        let directive = match parse_attributes(&field.attrs) {
            Ok(d) => d,
            Err(name) => {
                proof {
                    assert(first_problem_at(def, i as int));
                    lemma_first_problem_unique(def, i as int);
                }
                return Err(
                    SchemaError::UnknownDirective { record: input.ident.clone(), directive: name },
                );
            },
        };
        let name = match directive.rename {
            Some(name) => name,
            None => ascii_lowercase(field.ident.as_str()),
        };
        assert(name@ == column_name_of(def.fields[i as int]));
        let mut k: usize = 0;
        while k < columns.len()
            invariant
                k <= columns.len(),
                columns@.len() == i,
                i < input.fields.len(),
                def == input@,
                name@ == column_name_of(def.fields[i as int]),
                all_known(collected(def.attrs)),
                all_known(collected(def.fields[i as int].attrs)),
                forall|j: int| 0 <= j < i ==> (#[trigger] columns@[j])@ == column_of(
                    def.fields[j],
                    type_default,
                ),
                forall|j: int| 0 <= j < i ==> (#[trigger] field_problem(def, j)) is None,
                forall|j: int|
                    0 <= j < k ==> column_name_of(#[trigger] def.fields[j]) != column_name_of(
                        def.fields[i as int],
                    ),
            decreases columns.len() - k,
        {
            if same_text(columns[k].column_name.as_str(), name.as_str()) {
                proof {
                    assert(columns@[k as int]@ == column_of(def.fields[k as int], type_default));
                    assert(column_name_of(def.fields[k as int]) == column_name_of(
                        def.fields[i as int],
                    ));
                    assert(name_taken(def, i as int));
                    assert(first_problem_at(def, i as int));
                    lemma_first_problem_unique(def, i as int);
                }
                return Err(
                    SchemaError::DuplicateColumn { record: input.ident.clone(), column: name },
                );
            }
            proof {
                assert(columns@[k as int]@ == column_of(def.fields[k as int], type_default));
            }
            k += 1;
        }
        assert(!name_taken(def, i as int));
        columns.push(
            ColumnSpec {
                source_field: field.ident.clone(),
                column_name: name,
                primary_key: directive.primary_key,
                autogenerated: directive.autogenerated,
                skip: directive.skip,
                default_on_missing: directive.default_on_missing || type_default,
            },
        );
        i += 1;
    }
    let schema = RecordSchema {
        record: input.ident.clone(),
        columns,
        default_on_missing: type_default,
    };
    proof {
        assert(schema@.columns =~= columns_of(def));
        assert forall|k: int| !first_problem_at(def, k) by {
            if 0 <= k < def.fields.len() {
                assert(field_problem(def, k) is None);
            }
        }
        lemma_resolved_wf(def);
    }
    Ok(schema)
}

} // verus!
