//! The `CREATE TABLE` statement.
use vstd::prelude::*;
use vstd::string::StringExecFns;

use crate::buffer::{joined, Buffer};
use crate::definition::{column_definition_sql, Column, ColumnView, Definition};
use crate::statement::Statement;
use crate::text::{quote, quoted};
use crate::{Error, Field};

verus! {

/// The definitions of a list of columns, in order, or the error of the first
/// one that fails.
pub open spec fn definitions_sql(cs: Seq<ColumnView>) -> Result<Seq<Seq<char>>, Error>
    decreases cs.len(),
{
    if cs.len() == 0 {
        Ok(Seq::empty())
    } else {
        match definitions_sql(cs.drop_last()) {
            Err(err) => Err(err),
            Ok(texts) => match column_definition_sql(cs.last()) {
                Ok(s) => Ok(texts.push(s)),
                Err(err) => Err(err),
            },
        }
    }
}

/// Once a prefix of the list fails, the whole list fails with its error.
pub proof fn lemma_definitions_sql_prefix_err(cs: Seq<ColumnView>, i: int)
    requires
        0 <= i <= cs.len(),
        definitions_sql(cs.take(i)) is Err,
    ensures
        definitions_sql(cs) == definitions_sql(cs.take(i)),
    decreases cs.len() - i,
{
    if i < cs.len() {
        assert(cs.take(i + 1).drop_last() =~= cs.take(i));
        lemma_definitions_sql_prefix_err(cs, i + 1);
    } else {
        assert(cs.take(i) =~= cs);
    }
}

/// The models of a list of columns.
pub open spec fn column_views(cs: Seq<Column>) -> Seq<ColumnView> {
    cs.map_values(|c: Column| c@)
}

fn compile_definitions(cs: &Vec<Column>) -> (r: Result<Buffer, Error>)
    ensures
        match r {
            Ok(buffer) => definitions_sql(column_views(cs@)) == Ok::<Seq<Seq<char>>, Error>(
                buffer@,
            ),
            Err(err) => definitions_sql(column_views(cs@)) == Err::<Seq<Seq<char>>, Error>(err),
        },
{
    let ghost views = column_views(cs@);
    let mut buffer = Buffer::new();
    let mut i: usize = 0;
    while i < cs.len()
        invariant
            i <= cs.len(),
            views == column_views(cs@),
            definitions_sql(views.take(i as int)) == Ok::<Seq<Seq<char>>, Error>(buffer@),
        decreases cs.len() - i,
    {
        proof {
            assert(views.take(i + 1).drop_last() =~= views.take(i as int));
            assert(views.take(i + 1).last() == cs@[i as int]@);
        }
        match cs[i].compile() {
            Ok(s) => buffer.push(s),
            Err(err) => {
                proof {
                    lemma_definitions_sql_prefix_err(views, i + 1);
                }
                return Err(err);
            },
        }
        i = i + 1;
    }
    assert(views.take(i as int) =~= views);
    Ok(buffer)
}

/// The model of a `CREATE TABLE` statement.
pub struct CreateTableView {
    pub name: Option<Seq<char>>,
    pub if_not_exists: bool,
    pub columns: Seq<ColumnView>,
}

/// `CREATE TABLE`, `IF NOT EXISTS` if marked, the quoted name and the
/// column definitions in parentheses. It fails when the name is unset, then
/// when there are no columns, then at the first column that fails.
pub open spec fn create_table_sql(s: CreateTableView) -> Result<Seq<char>, Error> {
    match s.name {
        None => Err(Error { field: Field::Name }),
        Some(name) => if s.columns.len() == 0 {
            Err(Error { field: Field::Columns })
        } else {
            match definitions_sql(s.columns) {
                Err(err) => Err(err),
                Ok(definitions) => Ok(
                    "CREATE TABLE "@ + if s.if_not_exists {
                        "IF NOT EXISTS "@
                    } else {
                        Seq::empty()
                    } + quoted(name) + " ("@ + joined(definitions, ", "@) + ")"@,
                ),
            }
        },
    }
}

/// A `CREATE TABLE` statement.
pub struct CreateTable {
    name: Option<String>,
    if_not_exists: bool,
    columns: Vec<Column>,
}

impl View for CreateTable {
    type V = CreateTableView;

    closed spec fn view(&self) -> CreateTableView {
        CreateTableView {
            name: match self.name {
                Some(s) => Some(s@),
                None => None,
            },
            if_not_exists: self.if_not_exists,
            columns: column_views(self.columns@),
        }
    }
}

impl Default for CreateTable {
    /// A statement with nothing set.
    fn default() -> (r: CreateTable)
        ensures
            r@ == (CreateTableView { name: None, if_not_exists: false, columns: Seq::empty() }),
    {
        let r = CreateTable { name: None, if_not_exists: false, columns: Vec::new() };
        assert(r@.columns =~= Seq::<ColumnView>::empty());
        r
    }
}

impl CreateTable {
    /// A statement for the table with the given name.
    pub fn new(name: &str) -> (r: CreateTable)
        ensures
            r@ == (CreateTableView { name: Some(name@), if_not_exists: false, columns: Seq::empty() }),
    {
        CreateTable::default().name(name)
    }

    /// Set the name.
    pub fn name(self, name: &str) -> (r: CreateTable)
        ensures
            r@ == (CreateTableView { name: Some(name@), ..self@ }),
    {
        CreateTable { name: Some(String::from_str(name)), ..self }
    }

    /// Mark that it should be applied only if the table does not exist.
    pub fn if_not_exists(self) -> (r: CreateTable)
        ensures
            r@ == (CreateTableView { if_not_exists: true, ..self@ }),
    {
        CreateTable { if_not_exists: true, ..self }
    }

    /// Add a column at the end.
    pub fn column(self, column: Column) -> (r: CreateTable)
        ensures
            r@ == (CreateTableView { columns: self@.columns.push(column@), ..self@ }),
    {
        let mut columns = self.columns;
        let ghost before = columns@;
        columns.push(column);
        assert(column_views(columns@) =~= column_views(before).push(column@));
        CreateTable { columns, ..self }
    }

    /// Add columns at the end, in order.
    pub fn columns(self, values: &[Column]) -> (r: CreateTable)
        ensures
            r@ == (CreateTableView {
                columns: self@.columns + column_views(values@),
                ..self@
            }),
    {
        let mut columns = self.columns;
        let ghost before = column_views(columns@);
        let mut i: usize = 0;
        while i < values.len()
            invariant
                i <= values@.len(),
                column_views(columns@) == before + column_views(values@.take(i as int)),
            decreases values@.len() - i,
        {
            let ghost previous = columns@;
            columns.push(values[i].clone());
            assert(column_views(columns@) =~= column_views(previous).push(values@[i as int]@));
            assert(values@.take(i + 1) =~= values@.take(i as int).push(values@[i as int]));
            assert(column_views(values@.take(i + 1)) =~= column_views(values@.take(i as int)).push(
                values@[i as int]@,
            ));
            i = i + 1;
            assert(column_views(columns@) =~= before + column_views(values@.take(i as int)));
        }
        assert(values@.take(i as int) =~= values@);
        CreateTable { columns, ..self }
    }
}

impl Statement for CreateTable {
    open spec fn statement_sql(&self) -> Result<Seq<char>, Error> {
        create_table_sql(self@)
    }

    fn compile(&self) -> (r: Result<String, Error>) {
        let name = match &self.name {
            Some(name) => name,
            None => return Err(Error::unset(Field::Name)),
        };
        if self.columns.len() == 0 {
            return Err(Error::unset(Field::Columns));
        }
        let definitions = match compile_definitions(&self.columns) {
            Ok(buffer) => buffer.join(", "),
            Err(err) => return Err(err),
        };
        let mut r = String::from_str("CREATE TABLE ");
        if self.if_not_exists {
            r.append("IF NOT EXISTS ");
        }
        r.append(quote(name.as_str()).as_str());
        r.append(" (");
        r.append(definitions.as_str());
        r.append(")");
        Ok(r)
    }
}

/// Create a `CREATE TABLE` statement.
pub fn create_table(name: &str) -> (r: CreateTable)
    ensures
        r@ == (CreateTableView { name: Some(name@), if_not_exists: false, columns: Seq::empty() }),
{
    CreateTable::new(name)
}

} // verus!
