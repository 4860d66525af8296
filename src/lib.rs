//! A constructor of SQL statements.
//!
//! Statements, clauses, definitions and expressions are values that are built
//! by chained calls and then compiled into a single line of SQL text. Every
//! compilation is stated over a mathematical model of the value it compiles:
//! the `*_sql` spec functions give the exact text, or the one field whose
//! absence makes the compilation fail.
use vstd::prelude::*;

pub mod buffer;
pub mod text;
pub mod expression;
pub mod definition;
pub mod operation;
pub mod clause;
pub mod statement;
pub mod laws;
pub mod prelude;

verus! {

/// A data type of a column.
#[derive(Clone, Copy, Debug, PartialEq, Eq, Structural)]
pub enum Type {
    /// The binary type.
    Binary,
    /// The floating-point type.
    Float,
    /// The integer type.
    Integer,
    /// The string type.
    String,
}

/// The spelling of a type in SQL.
pub open spec fn type_sql(kind: Type) -> Seq<char> {
    match kind {
        Type::Binary => "BLOB"@,
        Type::Float => "REAL"@,
        Type::Integer => "INTEGER"@,
        Type::String => "TEXT"@,
    }
}

impl Type {
    /// The spelling of the type in SQL.
    pub fn sql(&self) -> (r: &'static str)
        ensures
            r@ == type_sql(*self),
    {
        match self {
            Type::Binary => "BLOB",
            Type::Float => "REAL",
            Type::Integer => "INTEGER",
            Type::String => "TEXT",
        }
    }
}

/// A field that compilation needs and that was not set.
#[derive(Clone, Copy, Debug, PartialEq, Eq, Structural)]
pub enum Field {
    /// The name of a column or of a table.
    Name,
    /// The type of a column.
    Kind,
    /// The table of a statement.
    Table,
    /// The columns of a statement.
    Columns,
    /// The conditions of a `WHERE` clause.
    Conditions,
    /// The parts of an `ORDER BY` clause.
    Parts,
}

/// The name by which an error message refers to a field.
pub open spec fn field_name(field: Field) -> Seq<char> {
    match field {
        Field::Name => "name"@,
        Field::Kind => "kind"@,
        Field::Table => "table"@,
        Field::Columns => "columns"@,
        Field::Conditions => "conditions"@,
        Field::Parts => "parts"@,
    }
}

impl Field {
    /// The name by which an error message refers to the field.
    pub fn name(&self) -> (r: &'static str)
        ensures
            r@ == field_name(*self),
    {
        match self {
            Field::Name => "name",
            Field::Kind => "kind",
            Field::Table => "table",
            Field::Columns => "columns",
            Field::Conditions => "conditions",
            Field::Parts => "parts",
        }
    }
}

/// An error: a field that compilation needs was not set.
#[derive(Clone, Copy, Debug, PartialEq, Eq, Structural)]
pub struct Error {
    pub field: Field,
}

/// The message of an error about a field.
pub open spec fn error_message(field: Field) -> Seq<char> {
    "expected “"@ + field_name(field) + "” to be set"@
}

impl Error {
    /// An error about a field that was not set.
    pub fn unset(field: Field) -> (r: Error)
        ensures
            r.field == field,
    {
        Error { field }
    }

    /// The message of the error.
    pub fn message(&self) -> (r: String)
        ensures
            r@ == error_message(self.field),
    {
        let mut r = String::from_str("expected “");
        r.append(self.field.name());
        r.append("” to be set");
        r
    }
}

/// The text of a compilation result, or its error.
pub open spec fn rendered(r: Result<String, Error>) -> Result<Seq<char>, Error> {
    match r {
        Ok(s) => Ok(s@),
        Err(e) => Err(e),
    }
}

} // verus!
