//! The `SELECT FROM` statement.
use vstd::prelude::*;
use vstd::string::StringExecFns;

use crate::buffer::joined;
use crate::clause::{order_by_sql, where_sql, Clause, OrderBy, Where};
use crate::expression::{ExprView, Expression};
use crate::operation::Condition;
use crate::statement::Statement;
use crate::text::{
    decimal, decimal_string, extend_names, quote, quote_all, quoted, quoted_all, str_views,
    string_views,
};
use crate::{Error, Field};

verus! {

/// The model of a `SELECT FROM` statement.
pub struct SelectFromView {
    pub table: Option<Seq<char>>,
    pub columns: Seq<Seq<char>>,
    pub conditions: Seq<ExprView>,
    pub order_by: Seq<ExprView>,
    pub limit: Option<usize>,
}

/// The selected columns: quoted and joined, or `*` when there are none.
pub open spec fn selection_sql(columns: Seq<Seq<char>>) -> Seq<char> {
    if columns.len() == 0 {
        "*"@
    } else {
        joined(quoted_all(columns), ", "@)
    }
}

/// The `WHERE` section, after a space, or nothing when there are no
/// conditions.
pub open spec fn where_section(conditions: Seq<ExprView>) -> Result<Seq<char>, Error> {
    if conditions.len() == 0 {
        Ok(Seq::empty())
    } else {
        match where_sql(conditions) {
            Ok(s) => Ok(" "@ + s),
            Err(err) => Err(err),
        }
    }
}

/// The `ORDER BY` section, after a space, or nothing when there are no parts.
pub open spec fn order_by_section(parts: Seq<ExprView>) -> Result<Seq<char>, Error> {
    if parts.len() == 0 {
        Ok(Seq::empty())
    } else {
        match order_by_sql(parts) {
            Ok(s) => Ok(" "@ + s),
            Err(err) => Err(err),
        }
    }
}

/// The `LIMIT` section, after a space, or nothing when no limit was set.
pub open spec fn limit_section(limit: Option<usize>) -> Seq<char> {
    match limit {
        Some(n) => " LIMIT "@ + decimal(n as nat),
        None => Seq::empty(),
    }
}

/// `SELECT`, the selected columns, `FROM` and the quoted table, followed by
/// the `WHERE`, `ORDER BY` and `LIMIT` sections that are present. It fails
/// when the table is unset, then at the first condition that fails, then at
/// the first part of the ordering that fails.
pub open spec fn select_from_sql(s: SelectFromView) -> Result<Seq<char>, Error> {
    match s.table {
        None => Err(Error { field: Field::Table }),
        Some(table) => match where_section(s.conditions) {
            Err(err) => Err(err),
            Ok(conditions) => match order_by_section(s.order_by) {
                Err(err) => Err(err),
                Ok(order) => Ok(
                    "SELECT "@ + selection_sql(s.columns) + " FROM "@ + quoted(table) + conditions
                        + order + limit_section(s.limit),
                ),
            },
        },
    }
}

/// A `SELECT FROM` statement.
pub struct SelectFrom {
    table: Option<String>,
    columns: Vec<String>,
    conditions: Where,
    order_by: OrderBy,
    limit: Option<usize>,
}

impl View for SelectFrom {
    type V = SelectFromView;

    closed spec fn view(&self) -> SelectFromView {
        SelectFromView {
            table: match self.table {
                Some(s) => Some(s@),
                None => None,
            },
            columns: string_views(self.columns@),
            conditions: self.conditions@,
            order_by: self.order_by@,
            limit: self.limit,
        }
    }
}

impl Default for SelectFrom {
    /// A statement with nothing set.
    fn default() -> (r: SelectFrom)
        ensures
            r@ == (SelectFromView {
                table: None,
                columns: Seq::empty(),
                conditions: Seq::empty(),
                order_by: Seq::empty(),
                limit: None,
            }),
    {
        let r = SelectFrom {
            table: None,
            columns: Vec::new(),
            conditions: Where::default(),
            order_by: OrderBy::default(),
            limit: None,
        };
        assert(r@.columns =~= Seq::<Seq<char>>::empty());
        r
    }
}

impl SelectFrom {
    /// A statement for the given table.
    pub fn new(table: &str) -> (r: SelectFrom)
        ensures
            r@ == (SelectFromView {
                table: Some(table@),
                columns: Seq::empty(),
                conditions: Seq::empty(),
                order_by: Seq::empty(),
                limit: None,
            }),
    {
        SelectFrom::default().table(table)
    }

    /// Set the table.
    pub fn table(self, name: &str) -> (r: SelectFrom)
        ensures
            r@ == (SelectFromView { table: Some(name@), ..self@ }),
    {
        SelectFrom { table: Some(String::from_str(name)), ..self }
    }

    /// Add a column at the end.
    pub fn column(self, name: &str) -> (r: SelectFrom)
        ensures
            r@ == (SelectFromView { columns: self@.columns.push(name@), ..self@ }),
    {
        let mut columns = self.columns;
        let ghost before = columns@;
        columns.push(String::from_str(name));
        assert(string_views(columns@) =~= string_views(before).push(name@));
        SelectFrom { columns, ..self }
    }

    /// Add columns at the end, in order.
    pub fn columns(self, names: &[&str]) -> (r: SelectFrom)
        ensures
            r@ == (SelectFromView { columns: self@.columns + str_views(names@), ..self@ }),
    {
        let mut columns = self.columns;
        extend_names(&mut columns, names);
        SelectFrom { columns, ..self }
    }

    /// Add a condition at the end; all conditions must hold.
    pub fn so_that<T: Condition>(self, condition: T) -> (r: SelectFrom)
        ensures
            r@ == (SelectFromView {
                conditions: self@.conditions.push(condition.condition()),
                ..self@
            }),
    {
        SelectFrom { conditions: self.conditions.and(condition), ..self }
    }

    /// Add a condition at the end, as `so_that` does.
    pub fn wherein<T: Condition>(self, condition: T) -> (r: SelectFrom)
        ensures
            r@ == (SelectFromView {
                conditions: self@.conditions.push(condition.condition()),
                ..self@
            }),
    {
        self.so_that(condition)
    }

    /// Add an expression to order by at the end.
    pub fn order_by<T: Expression>(self, part: T) -> (r: SelectFrom)
        ensures
            r@ == (SelectFromView { order_by: self@.order_by.push(part.expression()), ..self@ }),
    {
        SelectFrom { order_by: self.order_by.append(part), ..self }
    }

    /// Set the limit.
    pub fn limit(self, count: usize) -> (r: SelectFrom)
        ensures
            r@ == (SelectFromView { limit: Some(count), ..self@ }),
    {
        SelectFrom { limit: Some(count), ..self }
    }
}

impl Statement for SelectFrom {
    open spec fn statement_sql(&self) -> Result<Seq<char>, Error> {
        select_from_sql(self@)
    }

    fn compile(&self) -> (r: Result<String, Error>) {
        let table = match &self.table {
            Some(table) => table,
            None => return Err(Error::unset(Field::Table)),
        };
        let ghost view = self@;
        let mut r = String::from_str("SELECT ");
        if self.columns.len() == 0 {
            r.append("*");
        } else {
            r.append(quote_all(&self.columns).join(", ").as_str());
        }
        r.append(" FROM ");
        r.append(quote(table.as_str()).as_str());
        let ghost head = "SELECT "@ + selection_sql(view.columns) + " FROM "@ + quoted(
            view.table.unwrap(),
        );
        assert(r@ =~= head);
        if !self.conditions.is_empty() {
            match self.conditions.compile() {
                Ok(s) => {
                    r.append(" ");
                    r.append(s.as_str());
                },
                Err(err) => return Err(err),
            }
        }
        let ghost conditions = where_section(view.conditions)->Ok_0;
        assert(r@ =~= head + conditions);
        if !self.order_by.is_empty() {
            match self.order_by.compile() {
                Ok(s) => {
                    r.append(" ");
                    r.append(s.as_str());
                },
                Err(err) => return Err(err),
            }
        }
        let ghost order = order_by_section(view.order_by)->Ok_0;
        assert(r@ =~= head + conditions + order);
        if let Some(limit) = self.limit {
            r.append(" LIMIT ");
            r.append(decimal_string(limit).as_str());
        }
        assert(r@ =~= head + conditions + order + limit_section(view.limit));
        Ok(r)
    }
}

/// Create a `SELECT FROM` statement.
pub fn select_from(table: &str) -> (r: SelectFrom)
    ensures
        r@ == (SelectFromView {
            table: Some(table@),
            columns: Seq::empty(),
            conditions: Seq::empty(),
            order_by: Seq::empty(),
            limit: None,
        }),
{
    SelectFrom::new(table)
}

} // verus!

verus! {

/// A `SELECT` statement without ordering, built from nothing up: the table,
/// the columns, the conditions and the limit are all set by chained calls.
pub struct Select {
    inner: SelectFrom,
}

impl View for Select {
    type V = SelectFromView;

    closed spec fn view(&self) -> SelectFromView {
        self.inner@
    }
}

impl Default for Select {
    /// A statement with nothing set.
    fn default() -> (r: Select)
        ensures
            r@ == (SelectFromView {
                table: None,
                columns: Seq::empty(),
                conditions: Seq::empty(),
                order_by: Seq::empty(),
                limit: None,
            }),
    {
        Select { inner: SelectFrom::default() }
    }
}

impl Select {
    /// Set the table.
    pub fn table(self, name: &str) -> (r: Select)
        ensures
            r@ == (SelectFromView { table: Some(name@), ..self@ }),
    {
        Select { inner: self.inner.table(name) }
    }

    /// Add a column at the end.
    pub fn column(self, name: &str) -> (r: Select)
        ensures
            r@ == (SelectFromView { columns: self@.columns.push(name@), ..self@ }),
    {
        Select { inner: self.inner.column(name) }
    }

    /// Add columns at the end, in order.
    pub fn columns(self, names: &[&str]) -> (r: Select)
        ensures
            r@ == (SelectFromView { columns: self@.columns + str_views(names@), ..self@ }),
    {
        Select { inner: self.inner.columns(names) }
    }

    /// Add a condition at the end; all conditions must hold.
    pub fn wherein<T: Condition>(self, condition: T) -> (r: Select)
        ensures
            r@ == (SelectFromView {
                conditions: self@.conditions.push(condition.condition()),
                ..self@
            }),
    {
        Select { inner: self.inner.so_that(condition) }
    }

    /// Set the limit.
    pub fn limit(self, count: usize) -> (r: Select)
        ensures
            r@ == (SelectFromView { limit: Some(count), ..self@ }),
    {
        Select { inner: self.inner.limit(count) }
    }
}

impl Statement for Select {
    open spec fn statement_sql(&self) -> Result<Seq<char>, Error> {
        select_from_sql(self@)
    }

    fn compile(&self) -> (r: Result<String, Error>) {
        self.inner.compile()
    }
}

/// Create a `SELECT` statement with nothing set.
pub fn select() -> (r: Select)
    ensures
        r@ == (SelectFromView {
            table: None,
            columns: Seq::empty(),
            conditions: Seq::empty(),
            order_by: Seq::empty(),
            limit: None,
        }),
{
    Select::default()
}

} // verus!
