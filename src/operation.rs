//! Operations and conditions: fragments that produce a truth value.
use vstd::prelude::*;
use vstd::string::StringExecFns;

use crate::definition::Column;
use crate::expression::{expr_sql, Expr, ExprView, Expression, Pattern};
use crate::Error;

verus! {

/// A `LIKE` operation: an expression matched against a pattern.
pub struct Like {
    subject: Expr,
    pattern: Pattern,
}

/// The model of a `LIKE` operation.
pub struct LikeView {
    pub subject: ExprView,
    pub pattern: Seq<char>,
}

impl View for Like {
    type V = LikeView;

    closed spec fn view(&self) -> LikeView {
        LikeView { subject: self.subject@, pattern: self.pattern@ }
    }
}

/// The expression tree of a `LIKE` operation.
pub open spec fn like_node(like: LikeView) -> ExprView {
    ExprView::Like(Box::new(like.subject), like.pattern)
}

impl Like {
    /// Match an expression against a pattern.
    pub fn new<T: Expression>(subject: T, pattern: &str) -> (r: Like)
        ensures
            r@ == (LikeView { subject: subject.expression(), pattern: pattern@ }),
    {
        Like { subject: subject.into_expr(), pattern: Pattern::new(pattern) }
    }
}

/// A fragment that produces a truth value from its operands.
pub trait Operation: Sized {
    /// The expression tree that the operation stands for.
    spec fn operation(&self) -> ExprView;

    /// The operation as an expression tree.
    fn into_operation(self) -> (r: Expr)
        ensures
            r@ == self.operation(),
    ;

    /// Compile the operation.
    fn compile(&self) -> (r: Result<String, Error>)
        ensures
            crate::rendered(r) == expr_sql(self.operation()),
    ;
}

impl Operation for Like {
    open spec fn operation(&self) -> ExprView {
        like_node(self@)
    }

    fn into_operation(self) -> (r: Expr) {
        Expr::Like(Box::new(self.subject), self.pattern)
    }

    fn compile(&self) -> (r: Result<String, Error>) {
        let mut s = match self.subject.compile() {
            Ok(s) => s,
            Err(err) => return Err(err),
        };
        s.append(" LIKE '");
        s.append(self.pattern.as_str());
        s.append("'");
        Ok(s)
    }
}

/// A fragment that can stand in a `WHERE` clause.
pub trait Condition: Sized {
    /// The expression tree that the condition stands for.
    spec fn condition(&self) -> ExprView;

    /// The condition as an expression tree.
    fn into_condition(self) -> (r: Expr)
        ensures
            r@ == self.condition(),
    ;

    /// Compile the condition.
    fn compile(&self) -> (r: Result<String, Error>)
        ensures
            crate::rendered(r) == expr_sql(self.condition()),
    ;
}

/// Every operation is a condition.
impl<T: Operation> Condition for T {
    open spec fn condition(&self) -> ExprView {
        self.operation()
    }

    fn into_condition(self) -> (r: Expr) {
        self.into_operation()
    }

    fn compile(&self) -> (r: Result<String, Error>) {
        Operation::compile(self)
    }
}

/// A type that can be matched against a pattern.
pub trait Likable: Expression {
    /// Match against a pattern.
    fn like(self, pattern: &str) -> (r: Like)
        ensures
            r@ == (LikeView { subject: self.expression(), pattern: pattern@ }),
    {
        Like::new(self, pattern)
    }
}

impl Likable for Column {
}

impl Likable for String {
}

impl<'a> Likable for &'a str {
}

} // verus!
