//! The parameter binder.
//!
//! One record type backs statements of several shapes: an insert leaves out
//! what the engine generates, an update and a delete need the key. A binder
//! therefore offers the value of every field that is not skipped, under the
//! placeholder of its column, and hands over only those that the statement
//! at hand declares. It never looks into a value.

use crate::column::{column_views, columns, resolved, ColumnSpecView, RecordSchema};
use crate::definition::{add_trait_bounds, bounded, generic_views, Capability, GenericParam,
    GenericParamView, TypeDefinition, TypeDefinitionView};
use crate::engine::{declared_parameters, declares};
use crate::error::{SchemaError, SchemaErrorView};
use rusqlite::types::Value;
use rusqlite::Statement;
use vstd::prelude::*;

verus! {

/// A field that takes part in binding: its place among the fields of the
/// record and the placeholder of its column.
#[derive(Debug, Clone, PartialEq, Eq)]
pub struct BoundField {
    field: usize,
    placeholder: String,
}

pub struct BoundFieldView {
    pub field: int,
    pub placeholder: Seq<char>,
}

impl View for BoundField {
    type V = BoundFieldView;

    closed spec fn view(&self) -> BoundFieldView {
        BoundFieldView { field: self.field as int, placeholder: self.placeholder@ }
    }
}

impl BoundField {
    /// The place of the field among the fields of the record.
    pub fn field(&self) -> (field: usize)
        ensures
            field == self@.field,
    {
        self.field
    }

    /// The placeholder of the field's column, with its leading `:`.
    pub fn placeholder(&self) -> (placeholder: &String)
        ensures
            placeholder@ == self@.placeholder,
    {
        &self.placeholder
    }
}

/// The views of a sequence of bound fields, in order.
pub open spec fn bound_field_views(fields: Seq<BoundField>) -> Seq<BoundFieldView> {
    Seq::new(fields.len(), |i: int| fields[i]@)
}

/// The binder of one record type.
#[derive(Debug, PartialEq, Eq)]
pub struct ParamBinder {
    fields: Vec<BoundField>,
    arity: usize,
    generics: Vec<GenericParam>,
}

pub struct ParamBinderView {
    /// The fields that take part in binding, in schema order.
    pub fields: Seq<BoundFieldView>,
    /// The number of fields of the record.
    pub arity: nat,
    /// The generic parameters of the record type, with what binding asks of
    /// them.
    pub generics: Seq<GenericParamView>,
}

impl View for ParamBinder {
    type V = ParamBinderView;

    closed spec fn view(&self) -> ParamBinderView {
        ParamBinderView {
            fields: bound_field_views(self.fields@),
            arity: self.arity as nat,
            generics: generic_views(self.generics@),
        }
    }
}

/// The fields of a schema that take part in binding: those not skipped, each
/// with its place and the placeholder of its column, in schema order.
pub open spec fn bound_fields(columns: Seq<ColumnSpecView>) -> Seq<BoundFieldView>
    decreases columns.len(),
{
    if columns.len() == 0 {
        Seq::empty()
    } else if columns.last().skip {
        bound_fields(columns.drop_last())
    } else {
        bound_fields(columns.drop_last()).push(
            BoundFieldView {
                field: columns.len() - 1,
                placeholder: ":"@ + columns.last().column_name,
            },
        )
    }
}

/// The binder of a schema for a type with the given generic parameters.
pub open spec fn binder_of(columns: Seq<ColumnSpecView>, generics: Seq<GenericParamView>)
    -> ParamBinderView {
    ParamBinderView {
        fields: bound_fields(columns),
        arity: columns.len(),
        generics: bounded(generics, seq![Capability::Encodable]),
    }
}

/// The binder of a declaration, or the error of its resolution.
pub open spec fn derived(def: TypeDefinitionView) -> Result<ParamBinderView, SchemaErrorView> {
    match resolved(def) {
        Ok(schema) => Ok(binder_of(schema.columns, def.generics)),
        Err(e) => Err(e),
    }
}

/// For each bound field, whether the set of declared parameters holds its
/// placeholder.
pub open spec fn declared_flags(fields: Seq<BoundFieldView>, declared: Set<Seq<char>>) -> Seq<
    bool,
> {
    Seq::new(fields.len(), |k: int| declared.contains(fields[k].placeholder))
}

/// The pairs of placeholder and value for the bound fields whose flag is
/// set, in schema order.
pub open spec fn bound(fields: Seq<BoundFieldView>, flags: Seq<bool>, values: Seq<Value>) -> Seq<
    (Seq<char>, Value),
>
    decreases fields.len(),
{
    if fields.len() == 0 {
        Seq::empty()
    } else if flags[fields.len() - 1] {
        bound(fields.drop_last(), flags, values).push(
            (fields.last().placeholder, values[fields.last().field]),
        )
    } else {
        bound(fields.drop_last(), flags, values)
    }
}

/// The views of a sequence of named parameters, in order.
pub open spec fn param_views(params: Seq<(String, Value)>) -> Seq<(Seq<char>, Value)> {
    Seq::new(params.len(), |i: int| (params[i].0@, params[i].1))
}

/// The bound fields of a schema are fields of its record.
pub proof fn lemma_bound_fields_in_range(columns: Seq<ColumnSpecView>)
    ensures
        forall|k: int|
            0 <= k < bound_fields(columns).len() ==> 0 <= (#[trigger] bound_fields(
                columns,
            )[k]).field < columns.len(),
    decreases columns.len(),
{
    if columns.len() > 0 {
        let rest = bound_fields(columns.drop_last());
        lemma_bound_fields_in_range(columns.drop_last());
        assert forall|k: int| 0 <= k < bound_fields(columns).len() implies 0 <= (
        #[trigger] bound_fields(columns)[k]).field < columns.len() by {
            if k < rest.len() {
                assert(bound_fields(columns)[k] == rest[k]);
            }
        }
    }
}

/// Makes the binder of a schema for a type with the given generic
/// parameters.
pub fn generate(schema: &RecordSchema, generics: &Vec<GenericParam>) -> (binder: ParamBinder)
    ensures
        binder@ == binder_of(schema@.columns, generic_views(generics@)),
{
    let columns = schema.columns();
    let ghost all = schema@.columns;
    let mut fields: Vec<BoundField> = Vec::new();
    let mut i: usize = 0;
    while i < columns.len()
        invariant
            i <= columns.len(),
            all == column_views(columns@),
            bound_field_views(fields@) == bound_fields(all.take(i as int)),
        decreases columns.len() - i,
    {
        let column = &columns[i];
        proof {
            assert(all.take(i + 1).drop_last() =~= all.take(i as int));
            assert(all.take(i + 1).last() == column@);
        }
        if !column.skip() {
            let mut placeholder = String::from_str(":");
            placeholder.append(column.name().as_str());
            let ghost before = bound_field_views(fields@);
            let bound = BoundField { field: i, placeholder };
            fields.push(bound);
            proof {
                assert(bound_field_views(fields@) =~= before.push(bound@));
            }
        }
        i += 1;
    }
    let mut encodable: Vec<Capability> = Vec::new();
    encodable.push(Capability::Encodable);
    let bounded_generics = add_trait_bounds(generics, &encodable);
    proof {
        assert(all.take(columns.len() as int) =~= all);
        assert(encodable@ =~= seq![Capability::Encodable]);
        lemma_bound_fields_in_range(all);
        assert forall|k: int| 0 <= k < fields@.len() implies (#[trigger] fields@[k]).field
            < columns.len() by {
            assert(bound_field_views(fields@)[k] == fields@[k]@);
        }
    }
    ParamBinder { fields, arity: columns.len(), generics: bounded_generics }
}

/// Resolves a declaration and makes its binder.
pub fn derive(input: &TypeDefinition) -> (r: Result<ParamBinder, SchemaError>)
    ensures
        match r {
            Ok(binder) => derived(input@) == Ok::<ParamBinderView, SchemaErrorView>(binder@),
            Err(e) => derived(input@) == Err::<ParamBinderView, SchemaErrorView>(e@),
        },
{
    match columns(input) {
        Ok(schema) => Ok(generate(&schema, &input.generics)),
        Err(e) => Err(e),
    }
}

impl ParamBinder {
    /// Every bound field is a field of the record.
    #[verifier::type_invariant]
    closed spec fn in_range(self) -> bool {
        forall|k: int| 0 <= k < self.fields@.len() ==> (#[trigger] self.fields@[k]).field
            < self.arity
    }

    /// The fields that take part in binding, in schema order.
    pub fn fields(&self) -> (fields: &Vec<BoundField>)
        ensures
            bound_field_views(fields@) == self@.fields,
    {
        &self.fields
    }

    /// The number of fields of the record.
    pub fn arity(&self) -> (arity: usize)
        ensures
            arity == self@.arity,
    {
        self.arity
    }

    /// The generic parameters of the record type, each type parameter bound
    /// to be encodable.
    pub fn generics(&self) -> (generics: &Vec<GenericParam>)
        ensures
            generic_views(generics@) == self@.generics,
    {
        &self.generics
    }

    /// The named parameters of a record for a statement of which it is known,
    /// field by field, whether it declares the field's placeholder: the pairs
    /// of placeholder and value of the bound fields whose flag is set.
    /// `values` holds one value for each field of the record, and `flags` one
    /// flag for each bound field.
    pub fn select(&self, flags: &Vec<bool>, values: &Vec<Value>) -> (params: Vec<(String, Value)>)
        requires
            flags@.len() == self@.fields.len(),
            values@.len() == self@.arity,
        ensures
            param_views(params@) == bound(self@.fields, flags@, values@),
    {
        proof {
            use_type_invariant(self);
        }
        let ghost all = self@.fields;
        let mut params: Vec<(String, Value)> = Vec::new();
        let mut k: usize = 0;
        while k < self.fields.len()
            invariant
                k <= self.fields.len(),
                all == bound_field_views(self.fields@),
                all == self@.fields,
                forall|j: int|
                    0 <= j < self.fields@.len() ==> (#[trigger] self.fields@[j]).field < self.arity,
                flags@.len() == all.len(),
                values@.len() == self@.arity,
                param_views(params@) == bound(all.take(k as int), flags@, values@),
            decreases self.fields.len() - k,
        {
            let bound_field = &self.fields[k];
            proof {
                assert(all.take(k + 1).drop_last() =~= all.take(k as int));
                assert(all.take(k + 1).last() == bound_field@);
                assert(all[k as int] == bound_field@);
            }
            if flags[k] {
                let ghost before = param_views(params@);
                let value = values[bound_field.field].clone();
                let name = bound_field.placeholder.clone();
                params.push((name, value));
                proof {
                    assert(param_views(params@) =~= before.push(
                        (bound_field@.placeholder, values@[bound_field@.field]),
                    ));
                }
            }
            k += 1;
        }
        proof {
            assert(all.take(self.fields.len() as int) =~= all);
        }
        params
    }

    /// The named parameters of a record for a prepared statement: the pairs
    /// of placeholder and value of the bound fields whose placeholder the
    /// statement declares. `values` holds one value for each field of the
    /// record.
    pub fn to_named_params(&self, statement: &Statement<'_>, values: &Vec<Value>) -> (params: Vec<
        (String, Value),
    >)
        requires
            values@.len() == self@.arity,
        ensures
            param_views(params@) == bound(
                self@.fields,
                declared_flags(self@.fields, declared_parameters(*statement)),
                values@,
            ),
    {
        let ghost all = self@.fields;
        let mut flags: Vec<bool> = Vec::new();
        let mut k: usize = 0;
        while k < self.fields.len()
            invariant
                k <= self.fields.len(),
                all == bound_field_views(self.fields@),
                flags@ == declared_flags(all, declared_parameters(*statement)).take(k as int),
            decreases self.fields.len() - k,
        {
            let declared = declares(statement, self.fields[k].placeholder.as_str());
            flags.push(declared);
            proof {
                let full = declared_flags(all, declared_parameters(*statement));
                assert(full.take(k as int).push(full[k as int]) =~= full.take(k + 1));
            }
            k += 1;
        }
        proof {
            let full = declared_flags(all, declared_parameters(*statement));
            assert(full.take(self.fields.len() as int) =~= full);
        }
        self.select(&flags, values)
    }
}

} // verus!
