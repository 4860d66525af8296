//! The `DELETE FROM` statement.
use vstd::prelude::*;
use vstd::string::StringExecFns;

use crate::statement::Statement;
use crate::text::{quote, quoted};
use crate::{Error, Field};

verus! {

/// `DELETE FROM` and the quoted table, which must be set.
pub open spec fn delete_from_sql(table: Option<Seq<char>>) -> Result<Seq<char>, Error> {
    match table {
        Some(table) => Ok("DELETE FROM "@ + quoted(table)),
        None => Err(Error { field: Field::Table }),
    }
}

/// A `DELETE FROM` statement.
pub struct DeleteFrom {
    table: Option<String>,
}

impl View for DeleteFrom {
    /// The table.
    type V = Option<Seq<char>>;

    closed spec fn view(&self) -> Option<Seq<char>> {
        match self.table {
            Some(s) => Some(s@),
            None => None,
        }
    }
}

impl Default for DeleteFrom {
    /// A statement with no table.
    fn default() -> (r: DeleteFrom)
        ensures
            r@ == None::<Seq<char>>,
    {
        DeleteFrom { table: None }
    }
}

impl DeleteFrom {
    /// A statement for the given table.
    pub fn new(table: &str) -> (r: DeleteFrom)
        ensures
            r@ == Some(table@),
    {
        DeleteFrom::default().table(table)
    }

    /// Set the table.
    pub fn table(self, name: &str) -> (r: DeleteFrom)
        ensures
            r@ == Some(name@),
    {
        DeleteFrom { table: Some(String::from_str(name)) }
    }
}

impl Statement for DeleteFrom {
    open spec fn statement_sql(&self) -> Result<Seq<char>, Error> {
        delete_from_sql(self@)
    }

    fn compile(&self) -> (r: Result<String, Error>) {
        match &self.table {
            Some(table) => {
                let mut r = String::from_str("DELETE FROM ");
                r.append(quote(table.as_str()).as_str());
                Ok(r)
            },
            None => Err(Error::unset(Field::Table)),
        }
    }
}

/// Create a `DELETE FROM` statement.
pub fn delete_from(table: &str) -> (r: DeleteFrom)
    ensures
        r@ == Some(table@),
{
    DeleteFrom::new(table)
}

} // verus!

verus! {

/// A `DELETE` statement: the same command as `DELETE FROM`, built from a
/// table given later or at once.
pub struct Delete {
    inner: DeleteFrom,
}

impl View for Delete {
    /// The table.
    type V = Option<Seq<char>>;

    closed spec fn view(&self) -> Option<Seq<char>> {
        self.inner@
    }
}

impl Default for Delete {
    /// A statement with no table.
    fn default() -> (r: Delete)
        ensures
            r@ == None::<Seq<char>>,
    {
        Delete { inner: DeleteFrom::default() }
    }
}

impl Delete {
    /// A statement for the given table.
    pub fn new(table: &str) -> (r: Delete)
        ensures
            r@ == Some(table@),
    {
        Delete { inner: DeleteFrom::new(table) }
    }

    /// Set the table.
    pub fn table(self, name: &str) -> (r: Delete)
        ensures
            r@ == Some(name@),
    {
        Delete { inner: self.inner.table(name) }
    }
}

impl Statement for Delete {
    open spec fn statement_sql(&self) -> Result<Seq<char>, Error> {
        delete_from_sql(self@)
    }

    fn compile(&self) -> (r: Result<String, Error>) {
        self.inner.compile()
    }
}

} // verus!
