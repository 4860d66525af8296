//! Definitions: schema fragments.
use vstd::prelude::*;
use vstd::string::StringExecFns;

use crate::expression::column_ref_sql;
use crate::text::{quote, quoted};
use crate::{type_sql, Error, Field, Type};

verus! {

/// The model of a column.
pub struct ColumnView {
    pub name: Option<Seq<char>>,
    pub kind: Option<Type>,
    pub not_null: bool,
}

/// A column definition.
pub struct Column {
    name: Option<String>,
    kind: Option<Type>,
    not_null: bool,
}

impl View for Column {
    type V = ColumnView;

    closed spec fn view(&self) -> ColumnView {
        ColumnView {
            name: match self.name {
                Some(s) => Some(s@),
                None => None,
            },
            kind: self.kind,
            not_null: self.not_null,
        }
    }
}

/// A column in a `CREATE TABLE` statement: its quoted name, its type and,
/// if marked, `NOT NULL`. The name is looked at first.
pub open spec fn column_definition_sql(c: ColumnView) -> Result<Seq<char>, Error> {
    match c.name {
        None => Err(Error { field: Field::Name }),
        Some(name) => match c.kind {
            None => Err(Error { field: Field::Kind }),
            Some(kind) => Ok(
                quoted(name) + " "@ + type_sql(kind) + if c.not_null {
                    " NOT NULL"@
                } else {
                    Seq::empty()
                },
            ),
        },
    }
}

/// A schema fragment.
pub trait Definition {
    /// The text of the definition, or the first field found unset.
    spec fn definition_sql(&self) -> Result<Seq<char>, Error>;

    /// Compile the definition.
    fn compile(&self) -> (r: Result<String, Error>)
        ensures
            crate::rendered(r) == self.definition_sql(),
    ;
}

impl Default for Column {
    /// A column with nothing set.
    fn default() -> (r: Column)
        ensures
            r@ == (ColumnView { name: None, kind: None, not_null: false }),
    {
        Column { name: None, kind: None, not_null: false }
    }
}

impl Clone for Column {
    fn clone(&self) -> (r: Column)
        ensures
            r == *self,
    {
        let name = match &self.name {
            Some(s) => Some(s.clone()),
            None => None,
        };
        Column { name, kind: self.kind, not_null: self.not_null }
    }
}

impl Column {
    /// A column with the given name.
    pub fn new(name: &str) -> (r: Column)
        ensures
            r@ == (ColumnView { name: Some(name@), kind: None, not_null: false }),
    {
        Column::default().name(name)
    }

    /// Set the name.
    pub fn name(self, value: &str) -> (r: Column)
        ensures
            r@ == (ColumnView { name: Some(value@), ..self@ }),
    {
        Column { name: Some(String::from_str(value)), ..self }
    }

    /// Set the type.
    pub fn kind(self, value: Type) -> (r: Column)
        ensures
            r@ == (ColumnView { kind: Some(value), ..self@ }),
    {
        Column { kind: Some(value), ..self }
    }

    /// Set the type to `Binary`.
    pub fn binary(self) -> (r: Column)
        ensures
            r@ == (ColumnView { kind: Some(Type::Binary), ..self@ }),
    {
        self.kind(Type::Binary)
    }

    /// Set the type to `Float`.
    pub fn float(self) -> (r: Column)
        ensures
            r@ == (ColumnView { kind: Some(Type::Float), ..self@ }),
    {
        self.kind(Type::Float)
    }

    /// Set the type to `Integer`.
    pub fn integer(self) -> (r: Column)
        ensures
            r@ == (ColumnView { kind: Some(Type::Integer), ..self@ }),
    {
        self.kind(Type::Integer)
    }

    /// Set the type to `String`.
    pub fn string(self) -> (r: Column)
        ensures
            r@ == (ColumnView { kind: Some(Type::String), ..self@ }),
    {
        self.kind(Type::String)
    }

    /// Mark that it should not be null.
    pub fn not_null(self) -> (r: Column)
        ensures
            r@ == (ColumnView { not_null: true, ..self@ }),
    {
        Column { not_null: true, ..self }
    }

    /// Compile a reference to the column: its quoted name.
    pub fn compile_ref(&self) -> (r: Result<String, Error>)
        ensures
            crate::rendered(r) == column_ref_sql(self@),
    {
        match &self.name {
            Some(name) => Ok(quote(name.as_str())),
            None => Err(Error::unset(Field::Name)),
        }
    }
}

impl Definition for Column {
    open spec fn definition_sql(&self) -> Result<Seq<char>, Error> {
        column_definition_sql(self@)
    }

    fn compile(&self) -> (r: Result<String, Error>) {
        let name = match &self.name {
            Some(name) => name,
            None => return Err(Error::unset(Field::Name)),
        };
        let kind = match self.kind {
            Some(kind) => kind,
            None => return Err(Error::unset(Field::Kind)),
        };
        let mut r = quote(name.as_str());
        r.append(" ");
        r.append(kind.sql());
        if self.not_null {
            r.append(" NOT NULL");
        }
        Ok(r)
    }
}

/// Create a column definition.
pub fn column(name: &str) -> (r: Column)
    ensures
        r@ == (ColumnView { name: Some(name@), kind: None, not_null: false }),
{
    Column::new(name)
}

} // verus!
