//! Laws that relate the schema, the generators, the binder and the mapper.

use crate::column::{resolved, ColumnSpecView, RecordSchemaView};
use crate::definition::TypeDefinitionView;
use crate::directive::{collected, rename_of};
use crate::engine::ColumnRead;
use crate::error::{RuntimeError, SchemaErrorView};
use crate::sql_delete::delete_statement;
use crate::sql_insert::insert_statement;
use crate::sql_param::{bound, bound_fields, declared_flags, BoundFieldView};
use crate::sql_result::{decoded, field_outcome, plan_of, plans_of, FieldPlanView, FieldValue};
use crate::sql_update::{set_clauses, update_statement, where_predicates};
use crate::sql_upsert::upsert_statement;
use crate::statement::{clauses_of, formed, lemma_clauses_push, selected, selector, selects, Form,
    GeneratedStatementView, Selection};
use crate::text::join;
use rusqlite::types::Value;
use vstd::prelude::*;

verus! {

/// Whether some column of the list is taken by the selection.
pub open spec fn some_selected(columns: Seq<ColumnSpecView>, selection: Selection) -> bool {
    exists|i: int| 0 <= i < columns.len() && selects(selection, #[trigger] columns[i])
}

/// A selection is empty exactly where it takes no column.
pub proof fn lemma_selected_nonempty(columns: Seq<ColumnSpecView>, selection: Selection)
    ensures
        selected(columns, selection).len() > 0 <==> some_selected(columns, selection),
{
    let chosen = selected(columns, selection);
    if chosen.len() > 0 {
        columns.lemma_filter_pred(selector(selection), 0);
        assert(chosen.contains(chosen[0]));
        columns.lemma_filter_contains_rev(selector(selection), chosen[0]);
        let i = choose|i: int| 0 <= i < columns.len() && columns[i] == chosen[0];
        assert(selects(selection, columns[i]));
    }
    if some_selected(columns, selection) {
        let i = choose|i: int| 0 <= i < columns.len() && selects(selection, #[trigger] columns[i]);
        columns.lemma_filter_contains(selector(selection), i);
    }
}

/// A schema with a primary-key column and a column outside the key, neither
/// of them skipped, has an update statement. Its `SET` clause holds one
/// assignment for each column outside the key and its `WHERE` clause one
/// predicate for each column of the key, each written with the name of its
/// column, in schema order.
pub proof fn lemma_update_clauses(schema: RecordSchemaView)
    requires
        some_selected(schema.columns, Selection::Keys),
        some_selected(schema.columns, Selection::Values),
    ensures
        update_statement(schema) == Ok::<GeneratedStatementView, SchemaErrorView>(
            GeneratedStatementView {
                head: "UPDATE "@,
                tail: " SET "@ + join(set_clauses(schema), ", "@) + " WHERE "@ + join(
                    where_predicates(schema),
                    " AND "@,
                ),
            },
        ),
        set_clauses(schema).len() == selected(schema.columns, Selection::Values).len(),
        where_predicates(schema).len() == selected(schema.columns, Selection::Keys).len(),
        forall|i: int|
            0 <= i < set_clauses(schema).len() ==> #[trigger] set_clauses(schema)[i] == selected(
                schema.columns,
                Selection::Values,
            )[i].column_name + " = :"@ + selected(schema.columns, Selection::Values)[i].column_name,
        forall|i: int|
            0 <= i < where_predicates(schema).len() ==> #[trigger] where_predicates(schema)[i]
                == selected(schema.columns, Selection::Keys)[i].column_name + " = :"@ + selected(
                schema.columns,
                Selection::Keys,
            )[i].column_name,
{
    lemma_selected_nonempty(schema.columns, Selection::Keys);
    lemma_selected_nonempty(schema.columns, Selection::Values);
}

/// A schema has a delete and an upsert statement exactly where one of its
/// primary-key columns is not skipped. Where none is, both generators fail
/// with the error for a missing primary key.
pub proof fn lemma_primary_key_decides(schema: RecordSchemaView)
    ensures
        some_selected(schema.columns, Selection::Keys) ==> delete_statement(schema) is Ok
            && upsert_statement(schema) is Ok,
        !some_selected(schema.columns, Selection::Keys) ==> delete_statement(schema) == Err::<
            GeneratedStatementView,
            SchemaErrorView,
        >(SchemaErrorView::MissingPrimaryKey { record: schema.record }) && upsert_statement(schema)
            == Err::<GeneratedStatementView, SchemaErrorView>(
            SchemaErrorView::MissingPrimaryKey { record: schema.record },
        ),
{
    lemma_selected_nonempty(schema.columns, Selection::Keys);
}

/// A selected column has its clause among the clauses of the selection.
pub proof fn lemma_selected_clause(
    columns: Seq<ColumnSpecView>,
    selection: Selection,
    form: Form,
    i: int,
)
    requires
        0 <= i < columns.len(),
        selects(selection, columns[i]),
    ensures
        clauses_of(columns, selection, form).contains(formed(form, columns[i].column_name)),
{
    let chosen = selected(columns, selection);
    columns.lemma_filter_contains(selector(selection), i);
    let k = choose|k: int| 0 <= k < chosen.len() && chosen[k] == columns[i];
    assert(clauses_of(columns, selection, form)[k] == formed(form, columns[i].column_name));
}

/// Rename. Where a field carries a `column` directive, the name that the
/// directive gives is the name of the field's column: every clause that a
/// statement writes for the column is formed from it, the binder offers the
/// field under its placeholder, and the mapper reads the field by it.
pub proof fn lemma_rename_is_used(
    def: TypeDefinitionView,
    i: int,
    name: Seq<char>,
    selection: Selection,
    form: Form,
)
    requires
        resolved(def) is Ok,
        0 <= i < def.fields.len(),
        rename_of(collected(def.fields[i].attrs)) == Some(name),
    ensures
        resolved(def) matches Ok(schema) && ({
            let columns = schema.columns;
            &&& columns.len() == def.fields.len()
            &&& columns[i].column_name == name
            &&& selects(selection, columns[i]) ==> clauses_of(columns, selection, form).contains(
                formed(form, name),
            )
            &&& !columns[i].skip ==> bound_fields(columns).contains(
                BoundFieldView { field: i, placeholder: ":"@ + name },
            )
            &&& !columns[i].skip ==> plan_of(columns[i]) == if columns[i].default_on_missing {
                FieldPlanView::ReadOrDefault(name)
            } else {
                FieldPlanView::Read(name)
            }
        }),
{
    let columns = resolved(def)->Ok_0.columns;
    if selects(selection, columns[i]) {
        lemma_selected_clause(columns, selection, form, i);
    }
    if !columns[i].skip {
        lemma_bound_field_exists(columns, i);
    }
}

/// Whether two lists of columns differ in nothing but the identifiers of
/// their fields.
pub open spec fn same_columns(a: Seq<ColumnSpecView>, b: Seq<ColumnSpecView>) -> bool {
    &&& a.len() == b.len()
    &&& forall|i: int|
        0 <= i < a.len() ==> (#[trigger] a[i]) == (ColumnSpecView {
            source_field: a[i].source_field,
            ..b[i]
        })
}

/// The clauses of two lists of columns that differ only in field identifiers
/// are the same.
proof fn lemma_clauses_agree(
    a: Seq<ColumnSpecView>,
    b: Seq<ColumnSpecView>,
    selection: Selection,
    form: Form,
)
    requires
        same_columns(a, b),
    ensures
        clauses_of(a, selection, form) == clauses_of(b, selection, form),
    decreases a.len(),
{
    if a.len() == 0 {
        assert(a =~= Seq::<ColumnSpecView>::empty());
        assert(b =~= Seq::<ColumnSpecView>::empty());
    } else {
        assert(same_columns(a.drop_last(), b.drop_last())) by {
            assert forall|i: int| 0 <= i < a.drop_last().len() implies (#[trigger] a.drop_last()[i])
                == (ColumnSpecView {
                source_field: a.drop_last()[i].source_field,
                ..b.drop_last()[i]
            }) by {
                assert(a.drop_last()[i] == a[i]);
            }
        }
        lemma_clauses_agree(a.drop_last(), b.drop_last(), selection, form);
        lemma_clauses_push(a.drop_last(), a.last(), selection, form);
        lemma_clauses_push(b.drop_last(), b.last(), selection, form);
        assert(a.drop_last().push(a.last()) =~= a);
        assert(b.drop_last().push(b.last()) =~= b);
        assert(a[a.len() - 1] == a.last());
    }
}

/// The bound fields of two lists of columns that differ only in field
/// identifiers are the same.
proof fn lemma_bound_fields_agree(a: Seq<ColumnSpecView>, b: Seq<ColumnSpecView>)
    requires
        same_columns(a, b),
    ensures
        bound_fields(a) == bound_fields(b),
    decreases a.len(),
{
    if a.len() > 0 {
        assert(same_columns(a.drop_last(), b.drop_last())) by {
            assert forall|i: int| 0 <= i < a.drop_last().len() implies (#[trigger] a.drop_last()[i])
                == (ColumnSpecView {
                source_field: a.drop_last()[i].source_field,
                ..b.drop_last()[i]
            }) by {
                assert(a.drop_last()[i] == a[i]);
            }
        }
        lemma_bound_fields_agree(a.drop_last(), b.drop_last());
        assert(a[a.len() - 1] == a.last());
    }
}

/// Neither the statements nor the binder nor the mapper read the identifier
/// of a field: two schemas of one record type whose columns differ in nothing
/// else give the same statements, the same placeholders and the same lookups
/// by column name.
pub proof fn lemma_field_idents_unused(a: RecordSchemaView, b: RecordSchemaView)
    requires
        a.record == b.record,
        same_columns(a.columns, b.columns),
    ensures
        insert_statement(a.columns) == insert_statement(b.columns),
        update_statement(a) == update_statement(b),
        delete_statement(a) == delete_statement(b),
        upsert_statement(a) == upsert_statement(b),
        bound_fields(a.columns) == bound_fields(b.columns),
        plans_of(a.columns) == plans_of(b.columns),
{
    lemma_clauses_agree(a.columns, b.columns, Selection::Insertable, Form::Name);
    lemma_clauses_agree(a.columns, b.columns, Selection::Insertable, Form::Placeholder);
    lemma_clauses_agree(a.columns, b.columns, Selection::Active, Form::Name);
    lemma_clauses_agree(a.columns, b.columns, Selection::Active, Form::Placeholder);
    lemma_clauses_agree(a.columns, b.columns, Selection::Keys, Form::Name);
    lemma_clauses_agree(a.columns, b.columns, Selection::Keys, Form::Assignment);
    lemma_clauses_agree(a.columns, b.columns, Selection::Values, Form::Assignment);
    lemma_clauses_agree(a.columns, b.columns, Selection::Values, Form::Excluded);
    lemma_bound_fields_agree(a.columns, b.columns);
    assert(plans_of(a.columns) =~= plans_of(b.columns));
    assert(selected(a.columns, Selection::Values).len() == clauses_of(
        a.columns,
        Selection::Values,
        Form::Excluded,
    ).len());
    assert(selected(b.columns, Selection::Values).len() == clauses_of(
        b.columns,
        Selection::Values,
        Form::Excluded,
    ).len());
    assert(selected(a.columns, Selection::Keys).len() == clauses_of(
        a.columns,
        Selection::Keys,
        Form::Name,
    ).len());
    assert(selected(b.columns, Selection::Keys).len() == clauses_of(
        b.columns,
        Selection::Keys,
        Form::Name,
    ).len());
}

/// A record that maps without error holds, for each field, what that field
/// makes of the row.
pub proof fn lemma_decoded_fields(
    plans: Seq<FieldPlanView>,
    read: spec_fn(Seq<char>) -> ColumnRead,
    i: int,
)
    requires
        0 <= i < plans.len(),
    ensures
        match decoded(plans, read) {
            Ok(fields) => fields.len() == plans.len() && field_outcome(plans[i], read) == Ok::<
                FieldValue,
                RuntimeError,
            >(fields[i]),
            Err(_) => true,
        },
        field_outcome(plans[i], read) is Err ==> decoded(plans, read) is Err,
    decreases plans.len(),
{
    if i < plans.len() - 1 {
        lemma_decoded_fields(plans.drop_last(), read, i);
    } else if plans.len() > 1 {
        lemma_decoded_fields(plans.drop_last(), read, 0);
    }
}

/// Default fallback. Where the column of a field that is not skipped is
/// absent from the row, a field marked default takes its default and does
/// not fail the mapping by itself, and a field not so marked fails the
/// mapping of the record.
pub proof fn lemma_default_fallback(
    columns: Seq<ColumnSpecView>,
    read: spec_fn(Seq<char>) -> ColumnRead,
    i: int,
)
    requires
        0 <= i < columns.len(),
        !columns[i].skip,
        read(columns[i].column_name) is Missing,
    ensures
        columns[i].default_on_missing ==> field_outcome(plan_of(columns[i]), read) == Ok::<
            FieldValue,
            RuntimeError,
        >(FieldValue::Default),
        columns[i].default_on_missing ==> (decoded(plans_of(columns), read) matches Ok(fields)
            ==> fields.len() == columns.len() && fields[i] == FieldValue::Default),
        !columns[i].default_on_missing ==> decoded(plans_of(columns), read) is Err,
{
    lemma_decoded_fields(plans_of(columns), read, i);
}

/// Whether a row answers the read of each parameter's column with the value
/// that was bound to the parameter. The column of a parameter is its
/// placeholder without the leading `:`.
pub open spec fn stored(params: Seq<(Seq<char>, Value)>, read: spec_fn(Seq<char>) -> ColumnRead)
    -> bool {
    forall|k: int|
        0 <= k < params.len() ==> read((#[trigger] params[k]).0.skip(1)) == ColumnRead::Found(
            params[k].1,
        )
}

/// Every column that is not skipped has a bound field, with its place and
/// its placeholder.
proof fn lemma_bound_field_exists(columns: Seq<ColumnSpecView>, i: int)
    requires
        0 <= i < columns.len(),
        !columns[i].skip,
    ensures
        exists|j: int|
            0 <= j < bound_fields(columns).len() && #[trigger] bound_fields(columns)[j] == (
            BoundFieldView { field: i, placeholder: ":"@ + columns[i].column_name }),
    decreases columns.len(),
{
    let rest = bound_fields(columns.drop_last());
    if i == columns.len() - 1 {
        assert(bound_fields(columns)[rest.len() as int] == (BoundFieldView {
            field: i,
            placeholder: ":"@ + columns[i].column_name,
        }));
    } else {
        lemma_bound_field_exists(columns.drop_last(), i);
        let j = choose|j: int|
            0 <= j < rest.len() && #[trigger] rest[j] == (BoundFieldView {
                field: i,
                placeholder: ":"@ + columns.drop_last()[i].column_name,
            });
        assert(bound_fields(columns)[j] == rest[j]);
    }
}

/// Every bound field whose flag is set has its pair among the parameters.
proof fn lemma_bound_pair_exists(
    fields: Seq<BoundFieldView>,
    flags: Seq<bool>,
    values: Seq<Value>,
    j: int,
)
    requires
        0 <= j < fields.len(),
        flags[j],
    ensures
        exists|k: int|
            0 <= k < bound(fields, flags, values).len() && #[trigger] bound(
                fields,
                flags,
                values,
            )[k] == (fields[j].placeholder, values[fields[j].field]),
    decreases fields.len(),
{
    let rest = bound(fields.drop_last(), flags, values);
    if j == fields.len() - 1 {
        assert(bound(fields, flags, values)[rest.len() as int] == (
            fields[j].placeholder,
            values[fields[j].field],
        ));
    } else {
        lemma_bound_pair_exists(fields.drop_last(), flags, values, j);
        let k = choose|k: int|
            0 <= k < rest.len() && #[trigger] rest[k] == (
                fields.drop_last()[j].placeholder,
                values[fields.drop_last()[j].field],
            );
        assert(bound(fields, flags, values)[k] == rest[k]);
    }
}

/// Round trip. Bind a record to a statement, and let a row answer the read
/// of each bound parameter's column with the value that was bound. Then
/// mapping that row gives back, in every field that is not skipped and whose
/// placeholder the statement declares, the value that the record held.
pub proof fn lemma_round_trip(
    columns: Seq<ColumnSpecView>,
    declared: Set<Seq<char>>,
    values: Seq<Value>,
    read: spec_fn(Seq<char>) -> ColumnRead,
    i: int,
)
    requires
        values.len() == columns.len(),
        stored(
            bound(bound_fields(columns), declared_flags(bound_fields(columns), declared), values),
            read,
        ),
        0 <= i < columns.len(),
        !columns[i].skip,
        declared.contains(":"@ + columns[i].column_name),
    ensures
        field_outcome(plan_of(columns[i]), read) == Ok::<FieldValue, RuntimeError>(
            FieldValue::Stored(values[i]),
        ),
        decoded(plans_of(columns), read) matches Ok(fields) ==> fields.len() == columns.len()
            && fields[i] == FieldValue::Stored(values[i]),
{
    let fields = bound_fields(columns);
    let flags = declared_flags(fields, declared);
    let params = bound(fields, flags, values);
    let name = columns[i].column_name;
    lemma_bound_field_exists(columns, i);
    let j = choose|j: int|
        0 <= j < fields.len() && #[trigger] fields[j] == (BoundFieldView {
            field: i,
            placeholder: ":"@ + name,
        });
    assert(flags[j]);
    lemma_bound_pair_exists(fields, flags, values, j);
    let k = choose|k: int|
        0 <= k < params.len() && #[trigger] params[k] == (
            fields[j].placeholder,
            values[fields[j].field],
        );
    assert(read(params[k].0.skip(1)) == ColumnRead::Found(params[k].1));
    assert((":"@ + name).skip(1) =~= name) by {
        reveal_strlit(":");
    }
    lemma_decoded_fields(plans_of(columns), read, i);
}

/// The placeholders that an insert statement declares: those that it writes
/// into its list of values.
pub open spec fn insert_parameters(columns: Seq<ColumnSpecView>) -> Set<Seq<char>> {
    clauses_of(columns, Selection::Insertable, Form::Placeholder).to_set()
}

/// Round trip through an insert. Bind a record to its insert statement, and
/// let the freshly inserted row answer the read of each bound column with
/// the value that was bound. Then mapping that row gives back the value that
/// the record held in every field that is neither generated by the storage
/// engine nor skipped.
pub proof fn lemma_insert_round_trip(
    columns: Seq<ColumnSpecView>,
    values: Seq<Value>,
    read: spec_fn(Seq<char>) -> ColumnRead,
    i: int,
)
    requires
        values.len() == columns.len(),
        stored(
            bound(
                bound_fields(columns),
                declared_flags(bound_fields(columns), insert_parameters(columns)),
                values,
            ),
            read,
        ),
        0 <= i < columns.len(),
        !columns[i].autogenerated,
        !columns[i].skip,
    ensures
        field_outcome(plan_of(columns[i]), read) == Ok::<FieldValue, RuntimeError>(
            FieldValue::Stored(values[i]),
        ),
        decoded(plans_of(columns), read) matches Ok(fields) ==> fields.len() == columns.len()
            && fields[i] == FieldValue::Stored(values[i]),
{
    lemma_selected_clause(columns, Selection::Insertable, Form::Placeholder, i);
    lemma_round_trip(columns, insert_parameters(columns), values, read, i);
}

} // verus!
