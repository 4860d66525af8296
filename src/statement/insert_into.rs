//! The `INSERT INTO` statement.
use vstd::prelude::*;
use vstd::string::StringExecFns;

use crate::buffer::{joined, Buffer};
use crate::statement::Statement;
use crate::text::{
    extend_names, quote, quote_all, quoted, quoted_all, str_views, string_views,
};
use crate::{Error, Field};

verus! {

/// The model of an `INSERT INTO` statement.
pub struct InsertIntoView {
    pub table: Option<Seq<char>>,
    pub columns: Seq<Seq<char>>,
    pub batch: Option<usize>,
}

/// The number of rows: the batch count, one when it was not set.
pub open spec fn row_count(batch: Option<usize>) -> nat {
    match batch {
        Some(count) => count as nat,
        None => 1,
    }
}

/// A tuple of `n` placeholders.
pub open spec fn placeholders(n: nat) -> Seq<char> {
    "("@ + joined(Seq::new(n, |i: int| "?"@), ", "@) + ")"@
}

/// `INSERT INTO`, the quoted table, the quoted columns in parentheses, then
/// `VALUES` and one tuple of placeholders per row, each as long as the list
/// of columns. It fails when the table is unset, then when there are no
/// columns.
pub open spec fn insert_into_sql(s: InsertIntoView) -> Result<Seq<char>, Error> {
    match s.table {
        None => Err(Error { field: Field::Table }),
        Some(table) => if s.columns.len() == 0 {
            Err(Error { field: Field::Columns })
        } else {
            Ok(
                "INSERT INTO "@ + quoted(table) + " ("@ + joined(quoted_all(s.columns), ", "@)
                    + ") VALUES "@ + joined(
                    Seq::new(row_count(s.batch), |i: int| placeholders(s.columns.len())),
                    ", "@,
                ),
            )
        },
    }
}

/// An `INSERT INTO` statement.
pub struct InsertInto {
    table: Option<String>,
    columns: Vec<String>,
    batch: Option<usize>,
}

impl View for InsertInto {
    type V = InsertIntoView;

    closed spec fn view(&self) -> InsertIntoView {
        InsertIntoView {
            table: match self.table {
                Some(s) => Some(s@),
                None => None,
            },
            columns: string_views(self.columns@),
            batch: self.batch,
        }
    }
}

impl Default for InsertInto {
    /// A statement with nothing set.
    fn default() -> (r: InsertInto)
        ensures
            r@ == (InsertIntoView { table: None, columns: Seq::empty(), batch: None }),
    {
        let r = InsertInto { table: None, columns: Vec::new(), batch: None };
        assert(r@.columns =~= Seq::<Seq<char>>::empty());
        r
    }
}

impl InsertInto {
    /// A statement for the given table.
    pub fn new(table: &str) -> (r: InsertInto)
        ensures
            r@ == (InsertIntoView { table: Some(table@), columns: Seq::empty(), batch: None }),
    {
        InsertInto::default().table(table)
    }

    /// Set the table.
    pub fn table(self, name: &str) -> (r: InsertInto)
        ensures
            r@ == (InsertIntoView { table: Some(name@), ..self@ }),
    {
        InsertInto { table: Some(String::from_str(name)), ..self }
    }

    /// Add a column at the end.
    pub fn column(self, name: &str) -> (r: InsertInto)
        ensures
            r@ == (InsertIntoView { columns: self@.columns.push(name@), ..self@ }),
    {
        let mut columns = self.columns;
        let ghost before = columns@;
        columns.push(String::from_str(name));
        assert(string_views(columns@) =~= string_views(before).push(name@));
        InsertInto { columns, ..self }
    }

    /// Add columns at the end, in order.
    pub fn columns(self, names: &[&str]) -> (r: InsertInto)
        ensures
            r@ == (InsertIntoView { columns: self@.columns + str_views(names@), ..self@ }),
    {
        let mut columns = self.columns;
        extend_names(&mut columns, names);
        InsertInto { columns, ..self }
    }

    /// Set the number of rows to insert at once.
    pub fn batch(self, count: usize) -> (r: InsertInto)
        ensures
            r@ == (InsertIntoView { batch: Some(count), ..self@ }),
    {
        InsertInto { batch: Some(count), ..self }
    }

    /// Set the number of rows to insert at once, as `batch` does.
    pub fn multiple(self, count: usize) -> (r: InsertInto)
        ensures
            r@ == (InsertIntoView { batch: Some(count), ..self@ }),
    {
        self.batch(count)
    }
}

/// A tuple of `n` placeholders.
fn placeholder_tuple(n: usize) -> (r: String)
    ensures
        r@ == placeholders(n as nat),
{
    let mut marks = Buffer::new();
    let mut i: usize = 0;
    while i < n
        invariant
            i <= n,
            marks@ =~= Seq::new(i as nat, |j: int| "?"@),
        decreases n - i,
    {
        marks.push_str("?");
        i = i + 1;
    }
    let mut r = String::from_str("(");
    r.append(marks.join(", ").as_str());
    r.append(")");
    r
}

impl Statement for InsertInto {
    open spec fn statement_sql(&self) -> Result<Seq<char>, Error> {
        insert_into_sql(self@)
    }

    fn compile(&self) -> (r: Result<String, Error>) {
        let table = match &self.table {
            Some(table) => table,
            None => return Err(Error::unset(Field::Table)),
        };
        if self.columns.len() == 0 {
            return Err(Error::unset(Field::Columns));
        }
        let names = quote_all(&self.columns);
        let one = placeholder_tuple(names.len());
        let count = match self.batch {
            Some(count) => count,
            None => 1,
        };
        let mut rows = Buffer::new();
        let mut i: usize = 0;
        while i < count
            invariant
                i <= count,
                rows@ =~= Seq::new(i as nat, |j: int| one@),
            decreases count - i,
        {
            rows.push(one.clone());
            i = i + 1;
        }
        let mut r = String::from_str("INSERT INTO ");
        r.append(quote(table.as_str()).as_str());
        r.append(" (");
        r.append(names.join(", ").as_str());
        r.append(") VALUES ");
        r.append(rows.join(", ").as_str());
        Ok(r)
    }
}

/// Create an `INSERT INTO` statement.
pub fn insert_into(table: &str) -> (r: InsertInto)
    ensures
        r@ == (InsertIntoView { table: Some(table@), columns: Seq::empty(), batch: None }),
{
    InsertInto::new(table)
}

} // verus!
