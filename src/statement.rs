//! Statements: top-level fragments, each one complete SQL command.
use vstd::prelude::*;

use crate::Error;

pub mod create_table;
pub mod delete_from;
pub mod insert_into;
pub mod select_from;

verus! {

/// A complete SQL command.
pub trait Statement {
    /// The text of the statement, or the first field found unset.
    spec fn statement_sql(&self) -> Result<Seq<char>, Error>;

    /// Compile the statement.
    fn compile(&self) -> (r: Result<String, Error>)
        ensures
            crate::rendered(r) == self.statement_sql(),
    ;
}

} // verus!
