//! Laws that relate the builders to the text they compile to.
use vstd::prelude::*;

use crate::buffer::joined;
use crate::definition::ColumnView;
use crate::clause::exprs_sql;
use crate::expression::{expr_sql, ExprView};
use crate::statement::create_table::{create_table_sql, definitions_sql, CreateTableView};
use crate::statement::insert_into::{insert_into_sql, placeholders, InsertIntoView};
use crate::statement::select_from::{select_from_sql, SelectFromView};
use crate::statement::Statement;
use crate::text::{quoted, quoted_all};
use crate::{rendered, type_sql, Error, Field};

verus! {

/// The definition of a column whose name and type are set.
pub open spec fn column_text(c: ColumnView) -> Seq<char> {
    quoted(c.name.unwrap()) + " "@ + type_sql(c.kind.unwrap()) + if c.not_null {
        " NOT NULL"@
    } else {
        Seq::empty()
    }
}

/// Columns whose names and types are set compile, each to its definition.
pub proof fn lemma_definitions_complete(columns: Seq<ColumnView>)
    requires
        forall|i: int|
            0 <= i < columns.len() ==> (#[trigger] columns[i]).name is Some && columns[i].kind is Some,
    ensures
        definitions_sql(columns) == Ok::<Seq<Seq<char>>, Error>(
            columns.map_values(|c: ColumnView| column_text(c)),
        ),
    decreases columns.len(),
{
    if columns.len() == 0 {
        assert(columns.map_values(|c: ColumnView| column_text(c)) =~= Seq::<Seq<char>>::empty());
    } else {
        let rest = columns.drop_last();
        assert forall|i: int| 0 <= i < rest.len() implies (#[trigger] rest[i]).name is Some
            && rest[i].kind is Some by {
            assert(rest[i] == columns[i]);
        }
        lemma_definitions_complete(rest);
        assert(columns.last() == columns[columns.len() - 1]);
        assert(columns.map_values(|c: ColumnView| column_text(c)) =~= rest.map_values(
            |c: ColumnView| column_text(c),
        ).push(column_text(columns.last())));
    }
}

/// Creating a table with a name and a non-empty list of columns whose names
/// and types are set compiles to `CREATE TABLE`, the quoted name, and the
/// definitions of the columns in the order in which they were added.
pub proof fn lemma_create_table_columns(table: Seq<char>, columns: Seq<ColumnView>)
    requires
        table.len() > 0,
        columns.len() > 0,
        forall|i: int|
            0 <= i < columns.len() ==> (#[trigger] columns[i]).name is Some && columns[i].kind is Some,
    ensures
        create_table_sql(
            CreateTableView {
                name: Some(table),
                if_not_exists: false,
                columns: Seq::<ColumnView>::empty() + columns,
            },
        ) == Ok::<Seq<char>, Error>(
            "CREATE TABLE "@ + quoted(table) + " ("@ + joined(
                columns.map_values(|c: ColumnView| column_text(c)),
                ", "@,
            ) + ")"@,
        ),
{
    assert(Seq::<ColumnView>::empty() + columns =~= columns);
    lemma_definitions_complete(columns);
}

/// An insertion with a table, a non-empty list of columns and a batch count
/// of `n` compiles to exactly `n` tuples of placeholders, each as long as the
/// list of columns.
pub proof fn lemma_insert_into_batch(table: Seq<char>, columns: Seq<Seq<char>>, n: usize)
    requires
        columns.len() > 0,
    ensures
        ({
            let rows = Seq::new(n as nat, |i: int| placeholders(columns.len()));
            &&& rows.len() == n
            &&& forall|i: int|
                0 <= i < n ==> #[trigger] rows[i] == "("@ + joined(
                    Seq::new(columns.len(), |j: int| "?"@),
                    ", "@,
                ) + ")"@
            &&& insert_into_sql(
                InsertIntoView {
                    table: Some(table),
                    columns: Seq::<Seq<char>>::empty() + columns,
                    batch: Some(n),
                },
            ) == Ok::<Seq<char>, Error>(
                "INSERT INTO "@ + quoted(table) + " ("@ + joined(quoted_all(columns), ", "@)
                    + ") VALUES "@ + joined(rows, ", "@),
            )
        }),
{
    assert(Seq::<Seq<char>>::empty() + columns =~= columns);
}

/// The texts of expressions that compile.
pub open spec fn expr_texts(es: Seq<ExprView>) -> Seq<Seq<char>> {
    es.map_values(|e: ExprView| expr_sql(e)->Ok_0)
}

/// A list of expressions that each compile compiles to their texts, in order.
pub proof fn lemma_exprs_complete(es: Seq<ExprView>)
    requires
        forall|i: int| 0 <= i < es.len() ==> expr_sql(#[trigger] es[i]) is Ok,
    ensures
        exprs_sql(es) == Ok::<Seq<Seq<char>>, Error>(expr_texts(es)),
    decreases es.len(),
{
    if es.len() == 0 {
        assert(expr_texts(es) =~= Seq::<Seq<char>>::empty());
    } else {
        let rest = es.drop_last();
        assert forall|i: int| 0 <= i < rest.len() implies expr_sql(#[trigger] rest[i]) is Ok by {
            assert(rest[i] == es[i]);
        }
        lemma_exprs_complete(rest);
        assert(es.last() == es[es.len() - 1]);
        assert(expr_texts(es) =~= expr_texts(rest).push(expr_sql(es.last())->Ok_0));
    }
}

/// Ordering a selection by expressions that compile, one call per
/// expression, keeps them in the order of the calls, joined by commas.
pub proof fn lemma_select_order_by_kept(table: Seq<char>, parts: Seq<ExprView>)
    requires
        parts.len() > 0,
        forall|i: int| 0 <= i < parts.len() ==> expr_sql(#[trigger] parts[i]) is Ok,
    ensures
        select_from_sql(
            SelectFromView {
                table: Some(table),
                columns: Seq::empty(),
                conditions: Seq::empty(),
                order_by: parts,
                limit: None,
            },
        ) == Ok::<Seq<char>, Error>(
            "SELECT "@ + "*"@ + " FROM "@ + quoted(table) + " "@ + "ORDER BY "@ + joined(
                expr_texts(parts),
                ", "@,
            ),
        ),
{
    lemma_exprs_complete(parts);
    let r = "SELECT "@ + "*"@ + " FROM "@ + quoted(table) + " "@ + "ORDER BY "@ + joined(
        expr_texts(parts),
        ", "@,
    );
    assert(select_from_sql(
        SelectFromView {
            table: Some(table),
            columns: Seq::empty(),
            conditions: Seq::empty(),
            order_by: parts,
            limit: None,
        },
    )->Ok_0 =~= r);
}

/// Compiling the same value twice gives the same result: compilation depends
/// on the value alone, which it takes by shared reference and leaves as it is.
pub proof fn lemma_compile_idempotent<S: Statement>(
    statement: &S,
    first: Result<String, Error>,
    second: Result<String, Error>,
)
    requires
        rendered(first) == statement.statement_sql(),
        rendered(second) == statement.statement_sql(),
    ensures
        rendered(first) == rendered(second),
{
}

/// A table created with no columns fails to compile, for want of columns.
pub proof fn lemma_create_table_needs_columns(table: Seq<char>, if_not_exists: bool)
    ensures
        create_table_sql(
            CreateTableView { name: Some(table), if_not_exists, columns: Seq::empty() },
        ) == Err::<Seq<char>, Error>(Error { field: Field::Columns }),
{
}

/// A selection with no table fails to compile, for want of the table,
/// whatever else was set.
pub proof fn lemma_select_needs_table(s: SelectFromView)
    requires
        s.table is None,
    ensures
        select_from_sql(s) == Err::<Seq<char>, Error>(Error { field: Field::Table }),
{
}

} // verus!
