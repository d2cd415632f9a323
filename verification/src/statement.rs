//! What the statement generators share: the statement text with its slot for
//! the table name, the choice of columns, and the forms in which a column
//! name is written into a clause.

use crate::column::{column_views, ColumnSpec, ColumnSpecView, RecordSchema};
use crate::text::{join, join_strings, texts};
use vstd::prelude::*;

verus! {

/// SQL text with one open slot, where the name of the table goes.
#[derive(Debug, Clone, PartialEq, Eq)]
pub struct GeneratedStatement {
    head: String,
    tail: String,
}

pub struct GeneratedStatementView {
    /// The text before the table name.
    pub head: Seq<char>,
    /// The text after the table name.
    pub tail: Seq<char>,
}

impl GeneratedStatementView {
    /// The statement with `table` in its slot.
    pub open spec fn rendered(self, table: Seq<char>) -> Seq<char> {
        self.head + table + self.tail
    }
}

impl View for GeneratedStatement {
    type V = GeneratedStatementView;

    closed spec fn view(&self) -> GeneratedStatementView {
        GeneratedStatementView { head: self.head@, tail: self.tail@ }
    }
}

impl GeneratedStatement {
    /// A statement from the text before and after the table name.
    pub(crate) fn new(head: String, tail: String) -> (statement: GeneratedStatement)
        ensures
            statement@ == (GeneratedStatementView { head: head@, tail: tail@ }),
    {
        GeneratedStatement { head, tail }
    }

    /// The text before the table name.
    pub fn head(&self) -> (head: &String)
        ensures
            head@ == self@.head,
    {
        &self.head
    }

    /// The text after the table name.
    pub fn tail(&self) -> (tail: &String)
        ensures
            tail@ == self@.tail,
    {
        &self.tail
    }

    /// The statement for the table `table`.
    pub fn render(&self, table: &str) -> (sql: String)
        ensures
            sql@ == self@.rendered(table@),
    {
        let mut sql = self.head.clone();
        sql.append(table);
        sql.append(self.tail.as_str());
        sql
    }
}

/// Which columns of a schema a clause is made of. A skipped column is in
/// none of them.
#[derive(Debug, Clone, Copy, PartialEq, Eq, Structural)]
pub enum Selection {
    /// Every column that is not skipped.
    Active,
    /// Those that the storage engine does not generate itself.
    Insertable,
    /// Those of the primary key.
    Keys,
    /// Those outside the primary key.
    Values,
}

/// Whether the selection takes the column.
pub open spec fn selects(selection: Selection, column: ColumnSpecView) -> bool {
    !column.skip && match selection {
        Selection::Active => true,
        Selection::Insertable => !column.autogenerated,
        Selection::Keys => column.primary_key,
        Selection::Values => !column.primary_key,
    }
}

/// The selection as a predicate on columns.
pub open spec fn selector(selection: Selection) -> spec_fn(ColumnSpecView) -> bool {
    |column: ColumnSpecView| selects(selection, column)
}

/// The columns that the selection takes, in schema order.
pub open spec fn selected(columns: Seq<ColumnSpecView>, selection: Selection) -> Seq<
    ColumnSpecView,
> {
    columns.filter(selector(selection))
}

/// How a column name is written into a clause.
#[derive(Debug, Clone, Copy, PartialEq, Eq, Structural)]
pub enum Form {
    /// The name itself: `age`.
    Name,
    /// The named placeholder: `:age`.
    Placeholder,
    /// The column set to, or compared with, its placeholder: `age = :age`.
    Assignment,
    /// The column set to the value that the insert proposed:
    /// `age = excluded.age`.
    Excluded,
}

/// The text of a column name in the given form.
pub open spec fn formed(form: Form, name: Seq<char>) -> Seq<char> {
    match form {
        Form::Name => name,
        Form::Placeholder => ":"@ + name,
        Form::Assignment => name + " = :"@ + name,
        Form::Excluded => name + " = excluded."@ + name,
    }
}

/// The names of the selected columns, each in the given form, in schema
/// order.
pub open spec fn clauses_of(columns: Seq<ColumnSpecView>, selection: Selection, form: Form) -> Seq<
    Seq<char>,
> {
    let chosen = selected(columns, selection);
    Seq::new(chosen.len(), |i: int| formed(form, chosen[i].column_name))
}

/// The clauses joined by a separator.
pub open spec fn listed(
    columns: Seq<ColumnSpecView>,
    selection: Selection,
    form: Form,
    sep: Seq<char>,
) -> Seq<char> {
    join(clauses_of(columns, selection, form), sep)
}

/// One more column adds its clause where the selection takes it.
pub proof fn lemma_clauses_push(
    columns: Seq<ColumnSpecView>,
    column: ColumnSpecView,
    selection: Selection,
    form: Form,
)
    ensures
        clauses_of(columns.push(column), selection, form) == if selects(selection, column) {
            clauses_of(columns, selection, form).push(formed(form, column.column_name))
        } else {
            clauses_of(columns, selection, form)
        },
{
    columns.lemma_filter_push(column, selector(selection));
    if selects(selection, column) {
        assert(clauses_of(columns.push(column), selection, form) =~= clauses_of(
            columns,
            selection,
            form,
        ).push(formed(form, column.column_name)));
    }
}

/// Writes a column name in the given form.
fn form_name(form: Form, name: &str) -> (text: String)
    ensures
        text@ == formed(form, name@),
{
    match form {
        Form::Name => String::from_str(name),
        Form::Placeholder => {
            let mut text = String::from_str(":");
            text.append(name);
            text
        },
        Form::Assignment => {
            let mut text = String::from_str(name);
            text.append(" = :");
            text.append(name);
            text
        },
        Form::Excluded => {
            let mut text = String::from_str(name);
            text.append(" = excluded.");
            text.append(name);
            text
        },
    }
}

/// Whether the selection takes the column.
fn takes(selection: Selection, column: &ColumnSpec) -> (b: bool)
    ensures
        b == selects(selection, column@),
{
    !column.skip() && match selection {
        Selection::Active => true,
        Selection::Insertable => !column.autogenerated(),
        Selection::Keys => column.primary_key(),
        Selection::Values => !column.primary_key(),
    }
}

/// The names of the selected columns of a schema, each in the given form, in
/// schema order.
pub fn clauses(schema: &RecordSchema, selection: Selection, form: Form) -> (list: Vec<String>)
    ensures
        texts(list@) == clauses_of(schema@.columns, selection, form),
{
    let columns = schema.columns();
    let ghost all = schema@.columns;
    let mut list: Vec<String> = Vec::new();
    let mut i: usize = 0;
    while i < columns.len()
        invariant
            i <= columns.len(),
            all == column_views(columns@),
            texts(list@) == clauses_of(all.take(i as int), selection, form),
        decreases columns.len() - i,
    {
        let column = &columns[i];
        proof {
            lemma_clauses_push(all.take(i as int), column@, selection, form);
            assert(all.take(i as int).push(column@) =~= all.take(i + 1));
        }
        if takes(selection, column) {
            let text = form_name(form, column.name().as_str());
            let ghost before = texts(list@);
            list.push(text);
            proof {
                assert(texts(list@) =~= before.push(text@));
            }
        }
        i += 1;
    }
    proof {
        assert(all.take(columns.len() as int) =~= all);
    }
    list
}

/// The clauses of a schema joined by a separator.
pub fn list(schema: &RecordSchema, selection: Selection, form: Form, sep: &str) -> (text: String)
    ensures
        text@ == listed(schema@.columns, selection, form, sep@),
{
    let parts = clauses(schema, selection, form);
    join_strings(&parts, sep)
}

} // verus!
