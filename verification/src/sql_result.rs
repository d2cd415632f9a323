//! The row mapper.
//!
//! A record is rebuilt from a result row field by field. A skipped field
//! takes the default of its type. Any other field is read from the column of
//! its name; where the column is absent from the result and the field falls
//! back to its default, it takes the default instead. Every other failure to
//! read ends the mapping with an error that keeps what the engine reported.
//!
//! A skipped field must fall back to its default, or no mapper is made.

use crate::column::{column_views, columns, resolved, ColumnSpecView, RecordSchema,
    RecordSchemaView};
use crate::definition::{add_trait_bounds, bounded, generic_views, Capability, GenericParam,
    GenericParamView, TypeDefinition, TypeDefinitionView};
use crate::engine::{column_read, read_column, ColumnRead};
use crate::error::{RuntimeError, SchemaError, SchemaErrorView};
use rusqlite::types::Value;
use rusqlite::Row;
use vstd::prelude::*;

verus! {

/// Where the value of one field comes from.
#[derive(Debug, Clone, PartialEq, Eq)]
pub enum FieldPlan {
    /// The field is skipped: it takes the default of its type.
    UseDefault,
    /// The field is read from this column, or takes the default of its type
    /// where the result has no such column.
    ReadOrDefault(String),
    /// The field is read from this column.
    Read(String),
}

pub enum FieldPlanView {
    UseDefault,
    ReadOrDefault(Seq<char>),
    Read(Seq<char>),
}

impl View for FieldPlan {
    type V = FieldPlanView;

    open spec fn view(&self) -> FieldPlanView {
        match self {
            FieldPlan::UseDefault => FieldPlanView::UseDefault,
            FieldPlan::ReadOrDefault(name) => FieldPlanView::ReadOrDefault(name@),
            FieldPlan::Read(name) => FieldPlanView::Read(name@),
        }
    }
}

/// The views of a sequence of field plans, in order.
pub open spec fn plan_views(plans: Seq<FieldPlan>) -> Seq<FieldPlanView> {
    Seq::new(plans.len(), |i: int| plans[i]@)
}

/// What a field of a mapped record holds.
#[derive(Debug, Clone, PartialEq)]
pub enum FieldValue {
    /// The value read from the field's column.
    Stored(Value),
    /// The default of the field's type.
    Default,
}

/// The mapper of one record type.
#[derive(Debug, Clone, PartialEq, Eq)]
pub struct RowMapper {
    plans: Vec<FieldPlan>,
    generics: Vec<GenericParam>,
}

pub struct RowMapperView {
    /// One plan for each field of the record, in schema order.
    pub plans: Seq<FieldPlanView>,
    /// The generic parameters of the record type, with what mapping asks of
    /// them.
    pub generics: Seq<GenericParamView>,
}

impl View for RowMapper {
    type V = RowMapperView;

    closed spec fn view(&self) -> RowMapperView {
        RowMapperView { plans: plan_views(self.plans@), generics: generic_views(self.generics@) }
    }
}

/// The plan for the field of a column.
pub open spec fn plan_of(column: ColumnSpecView) -> FieldPlanView {
    if column.skip {
        FieldPlanView::UseDefault
    } else if column.default_on_missing {
        FieldPlanView::ReadOrDefault(column.column_name)
    } else {
        FieldPlanView::Read(column.column_name)
    }
}

/// Whether the column is skipped without a default to fall back on.
pub open spec fn lacks_default(column: ColumnSpecView) -> bool {
    column.skip && !column.default_on_missing
}

/// Whether column `i` is the first that is skipped without a default.
pub open spec fn first_lacking_at(columns: Seq<ColumnSpecView>, i: int) -> bool {
    &&& 0 <= i < columns.len()
    &&& lacks_default(columns[i])
    &&& forall|j: int| 0 <= j < i ==> !lacks_default(#[trigger] columns[j])
}

/// The plans of a list of columns, in order.
pub open spec fn plans_of(columns: Seq<ColumnSpecView>) -> Seq<FieldPlanView> {
    Seq::new(columns.len(), |i: int| plan_of(columns[i]))
}

/// The mapper of a schema for a type with the given generic parameters, or
/// the error that names the first field skipped without a default.
pub open spec fn mapper_of(schema: RecordSchemaView, generics: Seq<GenericParamView>) -> Result<
    RowMapperView,
    SchemaErrorView,
> {
    if exists|i: int| first_lacking_at(schema.columns, i) {
        Err(
            SchemaErrorView::SkipWithoutDefault {
                record: schema.record,
                field: schema.columns[choose|i: int|
                    first_lacking_at(schema.columns, i)].source_field,
            },
        )
    } else {
        Ok(
            RowMapperView {
                plans: plans_of(schema.columns),
                generics: bounded(generics, seq![Capability::Decodable, Capability::HasDefault]),
            },
        )
    }
}

/// The mapper of a declaration, or the error of its resolution or of a field
/// skipped without a default.
pub open spec fn derived(def: TypeDefinitionView) -> Result<RowMapperView, SchemaErrorView> {
    match resolved(def) {
        Ok(schema) => mapper_of(schema, def.generics),
        Err(e) => Err(e),
    }
}

/// What a field makes of the outcome of reading its column.
pub open spec fn decoded_field(plan: FieldPlanView, read: ColumnRead) -> Result<
    FieldValue,
    RuntimeError,
> {
    match plan {
        FieldPlanView::UseDefault => Ok(FieldValue::Default),
        FieldPlanView::ReadOrDefault(_) => match read {
            ColumnRead::Found(value) => Ok(FieldValue::Stored(value)),
            ColumnRead::Missing(_) => Ok(FieldValue::Default),
            ColumnRead::Failed(e) => Err(RuntimeError::InvalidValue(e)),
        },
        FieldPlanView::Read(_) => match read {
            ColumnRead::Found(value) => Ok(FieldValue::Stored(value)),
            ColumnRead::Missing(e) => Err(RuntimeError::MissingColumn(e)),
            ColumnRead::Failed(e) => Err(RuntimeError::InvalidValue(e)),
        },
    }
}

/// What a field holds for a row that answers reads by column name with
/// `read`.
pub open spec fn field_outcome(plan: FieldPlanView, read: spec_fn(Seq<char>) -> ColumnRead)
    -> Result<FieldValue, RuntimeError> {
    match plan {
        FieldPlanView::UseDefault => Ok(FieldValue::Default),
        FieldPlanView::ReadOrDefault(name) => decoded_field(plan, read(name)),
        FieldPlanView::Read(name) => decoded_field(plan, read(name)),
    }
}

/// The fields of the record for a row that answers reads by column name with
/// `read`, or the error of the first field that fails.
pub open spec fn decoded(plans: Seq<FieldPlanView>, read: spec_fn(Seq<char>) -> ColumnRead)
    -> Result<Seq<FieldValue>, RuntimeError>
    decreases plans.len(),
{
    if plans.len() == 0 {
        Ok(Seq::empty())
    } else {
        match decoded(plans.drop_last(), read) {
            Err(e) => Err(e),
            Ok(values) => match field_outcome(plans.last(), read) {
                Ok(value) => Ok(values.push(value)),
                Err(e) => Err(e),
            },
        }
    }
}

/// How a row answers reads by column name.
pub open spec fn reader(row: Row<'_>) -> spec_fn(Seq<char>) -> ColumnRead {
    |name: Seq<char>| column_read(row, name)
}

/// There is at most one first column skipped without a default.
proof fn lemma_first_lacking_unique(columns: Seq<ColumnSpecView>, i: int)
    requires
        first_lacking_at(columns, i),
    ensures
        (choose|k: int| first_lacking_at(columns, k)) == i,
{
    let c = choose|k: int| first_lacking_at(columns, k);
    assert(first_lacking_at(columns, c));
    if c < i {
        assert(!lacks_default(columns[c]));
    } else if i < c {
        assert(!lacks_default(columns[i]));
    }
}

/// Makes the mapper of a schema for a type with the given generic
/// parameters.
pub fn generate(schema: &RecordSchema, generics: &Vec<GenericParam>) -> (r: Result<
    RowMapper,
    SchemaError,
>)
    ensures
        match r {
            Ok(mapper) => mapper_of(schema@, generic_views(generics@)) == Ok::<
                RowMapperView,
                SchemaErrorView,
            >(mapper@),
            Err(e) => mapper_of(schema@, generic_views(generics@)) == Err::<
                RowMapperView,
                SchemaErrorView,
            >(e@),
        },
{
    let columns = schema.columns();
    let ghost all = schema@.columns;
    let mut plans: Vec<FieldPlan> = Vec::new();
    let mut i: usize = 0;
    while i < columns.len()
        invariant
            i <= columns.len(),
            all == column_views(columns@),
            all == schema@.columns,
            plans@.len() == i,
            forall|k: int| 0 <= k < i ==> (#[trigger] plans@[k])@ == plan_of(all[k]),
            forall|k: int| 0 <= k < i ==> !lacks_default(#[trigger] all[k]),
        decreases columns.len() - i,
    {
        let column = &columns[i];
        assert(column@ == all[i as int]);
        let plan = if column.skip() {
            if !column.default() {
                proof {
                    assert(first_lacking_at(all, i as int));
                    lemma_first_lacking_unique(all, i as int);
                }
                return Err(
                    SchemaError::SkipWithoutDefault {
                        record: schema.record().clone(),
                        field: column.source_field().clone(),
                    },
                );
            }
            FieldPlan::UseDefault
        } else if column.default() {
            FieldPlan::ReadOrDefault(column.name().clone())
        } else {
            FieldPlan::Read(column.name().clone())
        };
        plans.push(plan);
        i += 1;
    }
    let mut needed: Vec<Capability> = Vec::new();
    needed.push(Capability::Decodable);
    needed.push(Capability::HasDefault);
    let bounded_generics = add_trait_bounds(generics, &needed);
    proof {
        assert(needed@ =~= seq![Capability::Decodable, Capability::HasDefault]);
        assert(plan_views(plans@) =~= plans_of(all));
        assert forall|k: int| !first_lacking_at(all, k) by {
            if 0 <= k < all.len() {
                assert(!lacks_default(all[k]));
            }
        }
    }
    Ok(RowMapper { plans, generics: bounded_generics })
}

/// Resolves a declaration and makes its mapper.
pub fn derive(input: &TypeDefinition) -> (r: Result<RowMapper, SchemaError>)
    ensures
        match r {
            Ok(mapper) => derived(input@) == Ok::<RowMapperView, SchemaErrorView>(mapper@),
            Err(e) => derived(input@) == Err::<RowMapperView, SchemaErrorView>(e@),
        },
{
    match columns(input) {
        Ok(schema) => generate(&schema, &input.generics),
        Err(e) => Err(e),
    }
}

/// Decides what a field holds, given the outcome of reading its column. A
/// skipped field takes its default whatever the outcome.
pub fn decode_field(plan: &FieldPlan, read: ColumnRead) -> (r: Result<FieldValue, RuntimeError>)
    ensures
        r == decoded_field(plan@, read),
{
    match plan {
        FieldPlan::UseDefault => Ok(FieldValue::Default),
        FieldPlan::ReadOrDefault(_) => match read {
            ColumnRead::Found(value) => Ok(FieldValue::Stored(value)),
            ColumnRead::Missing(_) => Ok(FieldValue::Default),
            ColumnRead::Failed(e) => Err(RuntimeError::InvalidValue(e)),
        },
        FieldPlan::Read(_) => match read {
            ColumnRead::Found(value) => Ok(FieldValue::Stored(value)),
            ColumnRead::Missing(e) => Err(RuntimeError::MissingColumn(e)),
            ColumnRead::Failed(e) => Err(RuntimeError::InvalidValue(e)),
        },
    }
}

impl RowMapper {
    /// One plan for each field of the record, in schema order.
    pub fn plans(&self) -> (plans: &Vec<FieldPlan>)
        ensures
            plan_views(plans@) == self@.plans,
    {
        &self.plans
    }

    /// The generic parameters of the record type, each type parameter bound
    /// to be decodable and to have a default.
    pub fn generics(&self) -> (generics: &Vec<GenericParam>)
        ensures
            generic_views(generics@) == self@.generics,
    {
        &self.generics
    }

    /// Maps a result row to the fields of a record, in schema order.
    pub fn from_row(&self, row: &Row<'_>) -> (r: Result<Vec<FieldValue>, RuntimeError>)
        ensures
            match r {
                Ok(values) => decoded(self@.plans, reader(*row)) == Ok::<
                    Seq<FieldValue>,
                    RuntimeError,
                >(values@),
                Err(e) => decoded(self@.plans, reader(*row)) == Err::<
                    Seq<FieldValue>,
                    RuntimeError,
                >(e),
            },
    {
        let ghost all = self@.plans;
        let mut values: Vec<FieldValue> = Vec::new();
        let mut i: usize = 0;
        while i < self.plans.len()
            invariant
                i <= self.plans.len(),
                all == plan_views(self.plans@),
                decoded(all.take(i as int), reader(*row)) == Ok::<Seq<FieldValue>, RuntimeError>(
                    values@,
                ),
            decreases self.plans.len() - i,
        {
            let plan = &self.plans[i];
            proof {
                assert(all.take(i + 1).drop_last() =~= all.take(i as int));
                assert(all.take(i + 1).last() == plan@);
            }
            let outcome = match plan {
                FieldPlan::UseDefault => Ok(FieldValue::Default),
                FieldPlan::ReadOrDefault(name) => decode_field(plan, read_column(row, name.as_str())),
                FieldPlan::Read(name) => decode_field(plan, read_column(row, name.as_str())),
            };
            assert(outcome == field_outcome(plan@, reader(*row)));
            match outcome {
                Ok(value) => {
                    values.push(value);
                },
                Err(e) => {
                    proof {
                        lemma_decoded_error(all, reader(*row), i + 1);
                    }
                    return Err(e);
                },
            }
            i += 1;
        }
        proof {
            assert(all.take(self.plans.len() as int) =~= all);
        }
        Ok(values)
    }
}

/// An error among the first `n` fields is the error of the whole record.
proof fn lemma_decoded_error(
    plans: Seq<FieldPlanView>,
    read: spec_fn(Seq<char>) -> ColumnRead,
    n: int,
)
    requires
        0 <= n <= plans.len(),
        decoded(plans.take(n), read) is Err,
    ensures
        decoded(plans, read) == decoded(plans.take(n), read),
    decreases plans.len() - n,
{
    if n < plans.len() {
        assert(plans.take(n + 1).drop_last() =~= plans.take(n));
        lemma_decoded_error(plans, read, n + 1);
    } else {
        assert(plans.take(n) =~= plans);
    }
}

} // verus!
