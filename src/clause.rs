//! Clauses: a keyword with a list of fragments joined by a delimiter.
use vstd::prelude::*;
use vstd::string::StringExecFns;

use crate::buffer::{joined, Buffer};
use crate::expression::{expr_sql, Expr, ExprView, Expression};
use crate::operation::Condition;
use crate::{Error, Field};

verus! {

/// The texts of a list of expressions, in order, or the error of the first
/// one that fails.
pub open spec fn exprs_sql(es: Seq<ExprView>) -> Result<Seq<Seq<char>>, Error>
    decreases es.len(),
{
    if es.len() == 0 {
        Ok(Seq::empty())
    } else {
        match exprs_sql(es.drop_last()) {
            Err(err) => Err(err),
            Ok(texts) => match expr_sql(es.last()) {
                Ok(s) => Ok(texts.push(s)),
                Err(err) => Err(err),
            },
        }
    }
}

/// Once a prefix of the list fails, the whole list fails with its error.
pub proof fn lemma_exprs_sql_prefix_err(es: Seq<ExprView>, i: int)
    requires
        0 <= i <= es.len(),
        exprs_sql(es.take(i)) is Err,
    ensures
        exprs_sql(es) == exprs_sql(es.take(i)),
    decreases es.len() - i,
{
    if i < es.len() {
        let longer = es.take(i + 1);
        assert(longer.drop_last() =~= es.take(i));
        lemma_exprs_sql_prefix_err(es, i + 1);
    } else {
        assert(es.take(i) =~= es);
    }
}

/// Compile each expression in order, stopping at the first failure.
pub fn compile_exprs(es: &Vec<Expr>) -> (r: Result<Buffer, Error>)
    ensures
        match r {
            Ok(buffer) => exprs_sql(es@.map_values(|e: Expr| e@)) == Ok::<Seq<Seq<char>>, Error>(
                buffer@,
            ),
            Err(err) => exprs_sql(es@.map_values(|e: Expr| e@)) == Err::<Seq<Seq<char>>, Error>(
                err,
            ),
        },
{
    let ghost views = es@.map_values(|e: Expr| e@);
    let mut buffer = Buffer::new();
    let mut i: usize = 0;
    while i < es.len()
        invariant
            i <= es.len(),
            views == es@.map_values(|e: Expr| e@),
            exprs_sql(views.take(i as int)) == Ok::<Seq<Seq<char>>, Error>(buffer@),
        decreases es.len() - i,
    {
        proof {
            assert(views.take(i + 1).drop_last() =~= views.take(i as int));
            assert(views.take(i + 1).last() == es@[i as int]@);
        }
        match es[i].compile() {
            Ok(s) => buffer.push(s),
            Err(err) => {
                proof {
                    lemma_exprs_sql_prefix_err(views, i + 1);
                }
                return Err(err);
            },
        }
        i = i + 1;
    }
    assert(views.take(i as int) =~= views);
    Ok(buffer)
}

/// The models of a list of expressions.
pub open spec fn views(es: Seq<Expr>) -> Seq<ExprView> {
    es.map_values(|e: Expr| e@)
}

/// An `ORDER BY` clause over its parts: fails when there are none.
pub open spec fn order_by_sql(parts: Seq<ExprView>) -> Result<Seq<char>, Error> {
    if parts.len() == 0 {
        Err(Error { field: Field::Parts })
    } else {
        match exprs_sql(parts) {
            Ok(texts) => Ok("ORDER BY "@ + joined(texts, ", "@)),
            Err(err) => Err(err),
        }
    }
}

/// A `WHERE` clause over its conditions, joined with `AND`: fails when there
/// are none.
pub open spec fn where_sql(conditions: Seq<ExprView>) -> Result<Seq<char>, Error> {
    if conditions.len() == 0 {
        Err(Error { field: Field::Conditions })
    } else {
        match exprs_sql(conditions) {
            Ok(texts) => Ok("WHERE "@ + joined(texts, " AND "@)),
            Err(err) => Err(err),
        }
    }
}

/// A connective fragment.
pub trait Clause {
    /// The text of the clause, or the first field found unset.
    spec fn clause_sql(&self) -> Result<Seq<char>, Error>;

    /// Compile the clause.
    fn compile(&self) -> (r: Result<String, Error>)
        ensures
            crate::rendered(r) == self.clause_sql(),
    ;
}

/// Compile a keyword followed by the expressions joined with a delimiter.
fn compile_list(keyword: &str, es: &Vec<Expr>, delimiter: &str) -> (r: Result<String, Error>)
    ensures
        crate::rendered(r) == match exprs_sql(views(es@)) {
            Ok(texts) => Ok(keyword@ + joined(texts, delimiter@)),
            Err(err) => Err::<Seq<char>, Error>(err),
        },
{
    match compile_exprs(es) {
        Ok(buffer) => {
            let mut r = String::from_str(keyword);
            let list = buffer.join(delimiter);
            r.append(list.as_str());
            Ok(r)
        },
        Err(err) => Err(err),
    }
}

/// An `ORDER BY` clause.
pub struct OrderBy {
    parts: Vec<Expr>,
}

impl View for OrderBy {
    type V = Seq<ExprView>;

    closed spec fn view(&self) -> Seq<ExprView> {
        views(self.parts@)
    }
}

impl Default for OrderBy {
    /// A clause with no parts.
    fn default() -> (r: OrderBy)
        ensures
            r@ == Seq::<ExprView>::empty(),
    {
        let r = OrderBy { parts: Vec::new() };
        assert(r@ =~= Seq::<ExprView>::empty());
        r
    }
}

impl OrderBy {
    /// A clause with one part.
    pub fn new<T: Expression>(part: T) -> (r: OrderBy)
        ensures
            r@ == seq![part.expression()],
    {
        OrderBy::default().append(part)
    }

    /// Add a part at the end.
    pub fn append<T: Expression>(self, part: T) -> (r: OrderBy)
        ensures
            r@ == self@.push(part.expression()),
    {
        let mut parts = self.parts;
        let ghost before = parts@;
        parts.push(part.into_expr());
        let r = OrderBy { parts };
        assert(r@ =~= views(before).push(part.expression()));
        r
    }

    /// Add a part at the end, as `append` does.
    pub fn and<T: Expression>(self, part: T) -> (r: OrderBy)
        ensures
            r@ == self@.push(part.expression()),
    {
        self.append(part)
    }

    /// Whether the clause has no parts.
    pub fn is_empty(&self) -> (r: bool)
        ensures
            r == (self@.len() == 0),
    {
        self.parts.len() == 0
    }
}

impl Clause for OrderBy {
    open spec fn clause_sql(&self) -> Result<Seq<char>, Error> {
        order_by_sql(self@)
    }

    fn compile(&self) -> (r: Result<String, Error>) {
        if self.parts.len() == 0 {
            return Err(Error::unset(Field::Parts));
        }
        compile_list("ORDER BY ", &self.parts, ", ")
    }
}

/// A `WHERE` clause.
pub struct Where {
    conditions: Vec<Expr>,
}

impl View for Where {
    type V = Seq<ExprView>;

    closed spec fn view(&self) -> Seq<ExprView> {
        views(self.conditions@)
    }
}

impl Default for Where {
    /// A clause with no conditions.
    fn default() -> (r: Where)
        ensures
            r@ == Seq::<ExprView>::empty(),
    {
        let r = Where { conditions: Vec::new() };
        assert(r@ =~= Seq::<ExprView>::empty());
        r
    }
}

impl Where {
    /// Add a condition at the end; all conditions must hold.
    pub fn and<T: Condition>(self, condition: T) -> (r: Where)
        ensures
            r@ == self@.push(condition.condition()),
    {
        let mut conditions = self.conditions;
        let ghost before = conditions@;
        conditions.push(condition.into_condition());
        let r = Where { conditions };
        assert(r@ =~= views(before).push(condition.condition()));
        r
    }

    /// Whether the clause has no conditions.
    pub fn is_empty(&self) -> (r: bool)
        ensures
            r == (self@.len() == 0),
    {
        self.conditions.len() == 0
    }
}

impl Clause for Where {
    open spec fn clause_sql(&self) -> Result<Seq<char>, Error> {
        where_sql(self@)
    }

    fn compile(&self) -> (r: Result<String, Error>) {
        if self.conditions.len() == 0 {
            return Err(Error::unset(Field::Conditions));
        }
        compile_list("WHERE ", &self.conditions, " AND ")
    }
}

/// Create an `ORDER BY` clause.
pub fn order_by<T: Expression>(part: T) -> (r: OrderBy)
    ensures
        r@ == seq![part.expression()],
{
    OrderBy::new(part)
}

} // verus!
