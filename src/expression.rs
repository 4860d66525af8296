//! Expressions, operations and conditions: fragments that produce a value.
use vstd::prelude::*;
use vstd::string::StringExecFns;

use crate::definition::{Column, ColumnView};
use crate::text::{decimal, decimal_string, quoted};
use crate::{Error, Field};

verus! {

/// An order.
#[derive(Clone, Copy, Debug, PartialEq, Eq, Structural)]
pub enum Order {
    /// The ascending order.
    Ascending,
    /// The descending order.
    Descending,
}

/// A pattern to match against, inserted verbatim.
pub struct Pattern {
    text: String,
}

impl View for Pattern {
    type V = Seq<char>;

    closed spec fn view(&self) -> Seq<char> {
        self.text@
    }
}

impl Pattern {
    /// A pattern with the given text.
    pub fn new(text: &str) -> (r: Pattern)
        ensures
            r@ == text@,
    {
        Pattern { text: String::from_str(text) }
    }

    /// The text of the pattern.
    pub fn as_str(&self) -> (r: &str)
        ensures
            r@ == self@,
    {
        self.text.as_str()
    }
}

/// The model of an expression tree.
pub enum ExprView {
    /// Text passed through unchanged.
    Text(Seq<char>),
    /// A number, written in decimal.
    Number(nat),
    /// A reference to a column.
    Column(ColumnView),
    /// An expression and its order, if one was given.
    Ordered(Box<ExprView>, Option<Order>),
    /// An expression and the pattern it is matched against.
    Like(Box<ExprView>, Seq<char>),
}

/// An expression tree.
pub enum Expr {
    /// Text passed through unchanged: an identifier or a literal.
    Text(String),
    /// An unsigned integer, written in decimal.
    Number(usize),
    /// A reference to a column, quoted.
    Column(Column),
    /// An expression followed by an order, if one was given.
    Ordered(Box<Expr>, Option<Order>),
    /// An expression matched against a pattern.
    Like(Box<Expr>, Pattern),
}

/// The model of an expression tree.
pub open spec fn expr_view(e: Expr) -> ExprView
    decreases e,
{
    match e {
        Expr::Text(s) => ExprView::Text(s@),
        Expr::Number(n) => ExprView::Number(n as nat),
        Expr::Column(c) => ExprView::Column(c@),
        Expr::Ordered(inner, order) => ExprView::Ordered(Box::new(expr_view(*inner)), order),
        Expr::Like(inner, pattern) => ExprView::Like(Box::new(expr_view(*inner)), pattern@),
    }
}

impl View for Expr {
    type V = ExprView;

    open spec fn view(&self) -> ExprView {
        expr_view(*self)
    }
}

/// The text that follows an ordered expression.
pub open spec fn order_sql(order: Option<Order>) -> Seq<char> {
    match order {
        Some(Order::Ascending) => " ASC"@,
        Some(Order::Descending) => " DESC"@,
        None => Seq::empty(),
    }
}

/// A reference to a column: its quoted name, which must be set.
pub open spec fn column_ref_sql(c: ColumnView) -> Result<Seq<char>, Error> {
    match c.name {
        Some(name) => Ok(quoted(name)),
        None => Err(Error { field: Field::Name }),
    }
}

/// The text of an expression, or the first field found unset in it.
pub open spec fn expr_sql(e: ExprView) -> Result<Seq<char>, Error>
    decreases e,
{
    match e {
        ExprView::Text(s) => Ok(s),
        ExprView::Number(n) => Ok(decimal(n)),
        ExprView::Column(c) => column_ref_sql(c),
        ExprView::Ordered(inner, order) => match expr_sql(*inner) {
            Ok(s) => Ok(s + order_sql(order)),
            Err(err) => Err(err),
        },
        ExprView::Like(inner, pattern) => match expr_sql(*inner) {
            Ok(s) => Ok(s + " LIKE '"@ + pattern + "'"@),
            Err(err) => Err(err),
        },
    }
}

fn compile_expr(e: &Expr) -> (r: Result<String, Error>)
    ensures
        crate::rendered(r) == expr_sql(e@),
    decreases e,
{
    match e {
        Expr::Text(s) => Ok(s.clone()),
        Expr::Number(n) => Ok(decimal_string(*n)),
        Expr::Column(c) => c.compile_ref(),
        Expr::Ordered(inner, order) => {
            let mut s = match compile_expr(inner) {
                Ok(s) => s,
                Err(err) => return Err(err),
            };
            match order {
                Some(Order::Ascending) => s.append(" ASC"),
                Some(Order::Descending) => s.append(" DESC"),
                None => {},
            }
            Ok(s)
        },
        Expr::Like(inner, pattern) => {
            let mut s = match compile_expr(inner) {
                Ok(s) => s,
                Err(err) => return Err(err),
            };
            s.append(" LIKE '");
            s.append(pattern.text.as_str());
            s.append("'");
            Ok(s)
        },
    }
}

/// A fragment that produces a value.
pub trait Expression: Sized {
    /// The expression tree that the value stands for.
    spec fn expression(&self) -> ExprView;

    /// The value as an expression tree.
    fn into_expr(self) -> (r: Expr)
        ensures
            r@ == self.expression(),
    ;

    /// Compile the expression.
    fn compile(&self) -> (r: Result<String, Error>)
        ensures
            crate::rendered(r) == expr_sql(self.expression()),
    ;
}

impl Expression for Expr {
    open spec fn expression(&self) -> ExprView {
        self@
    }

    fn into_expr(self) -> (r: Expr) {
        self
    }

    fn compile(&self) -> (r: Result<String, Error>) {
        compile_expr(self)
    }
}

impl<'a> Expression for &'a str {
    open spec fn expression(&self) -> ExprView {
        ExprView::Text((*self)@)
    }

    fn into_expr(self) -> (r: Expr) {
        Expr::Text(String::from_str(self))
    }

    fn compile(&self) -> (r: Result<String, Error>) {
        Ok(String::from_str(*self))
    }
}

impl Expression for String {
    open spec fn expression(&self) -> ExprView {
        ExprView::Text(self@)
    }

    fn into_expr(self) -> (r: Expr) {
        Expr::Text(self)
    }

    fn compile(&self) -> (r: Result<String, Error>) {
        Ok(self.clone())
    }
}

impl Expression for usize {
    open spec fn expression(&self) -> ExprView {
        ExprView::Number(*self as nat)
    }

    fn into_expr(self) -> (r: Expr) {
        Expr::Number(self)
    }

    fn compile(&self) -> (r: Result<String, Error>) {
        Ok(decimal_string(*self))
    }
}

impl Expression for Column {
    open spec fn expression(&self) -> ExprView {
        ExprView::Column(self@)
    }

    fn into_expr(self) -> (r: Expr) {
        Expr::Column(self)
    }

    fn compile(&self) -> (r: Result<String, Error>) {
        self.compile_ref()
    }
}

/// A type that can be ordered by.
pub trait Orderable: Expression {
    /// Set the order, or leave it unspecified with `None`.
    fn order(self, order: Option<Order>) -> (r: Expr)
        ensures
            r@ == ExprView::Ordered(Box::new(self.expression()), order),
    {
        Expr::Ordered(Box::new(self.into_expr()), order)
    }

    /// Set the ascending order.
    fn ascending(self) -> (r: Expr)
        ensures
            r@ == ExprView::Ordered(Box::new(self.expression()), Some(Order::Ascending)),
    {
        self.order(Some(Order::Ascending))
    }

    /// Set the descending order.
    fn descending(self) -> (r: Expr)
        ensures
            r@ == ExprView::Ordered(Box::new(self.expression()), Some(Order::Descending)),
    {
        self.order(Some(Order::Descending))
    }
}

impl Orderable for Column {
}

impl Orderable for String {
}

impl<'a> Orderable for &'a str {
}

impl Orderable for usize {
}

} // verus!
