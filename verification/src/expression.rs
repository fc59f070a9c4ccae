//! Expressions: the content of the select, where, order and group-by slots.
//!
//! An [`Expr`] is a tree of column references, bound values, binary
//! operators and function calls. Its model, [`ExprView`], replaces every
//! string by its sequence of characters; all rules of the library are stated
//! over the model.

use vstd::prelude::*;

use crate::types::{SqlType, Value, ValueView};

verus! {

/// A binary operator.
#[derive(Clone, Copy, PartialEq, Eq, Debug, Structural)]
pub enum BinaryOp {
    Eq,
    NotEq,
    Lt,
    LtEq,
    Gt,
    GtEq,
    And,
    Or,
    Like,
    ILike,
}

/// A function of one argument.
#[derive(Clone, Copy, PartialEq, Eq, Debug, Structural)]
pub enum Function {
    Count,
    Max,
    Min,
    BoolAnd,
    Lower,
    Upper,
}

impl BinaryOp {
    /// `AND` and `OR`, which combine two boolean operands.
    pub open spec fn is_logical(self) -> bool {
        self == BinaryOp::And || self == BinaryOp::Or
    }

    /// `LIKE` and `ILIKE`, which match one text against another.
    pub open spec fn is_pattern(self) -> bool {
        self == BinaryOp::Like || self == BinaryOp::ILike
    }
}

impl Function {
    /// Whether the function folds many rows into one value.
    pub open spec fn is_aggregate(self) -> bool {
        self == Function::Count || self == Function::Max || self == Function::Min || self
            == Function::BoolAnd
    }
}

/// An expression tree.
#[derive(Debug, PartialEq, Eq)]
pub enum Expr {
    /// The column `name` of the source known as `source`, holding values of
    /// type `sql_type`.
    Column { source: String, name: String, sql_type: SqlType },
    /// A value sent as a bind parameter.
    Bound(Value),
    /// `left op right`.
    Binary { op: BinaryOp, left: Box<Expr>, right: Box<Expr> },
    /// `function(argument)`.
    Call { function: Function, argument: Box<Expr> },
}

/// The mathematical model of an [`Expr`].
pub enum ExprView {
    Column { source: Seq<char>, name: Seq<char>, sql_type: SqlType },
    Bound(ValueView),
    Binary { op: BinaryOp, left: Box<ExprView>, right: Box<ExprView> },
    Call { function: Function, argument: Box<ExprView> },
}

/// The model of `e`, by recursion on the tree.
pub open spec fn expr_view(e: Expr) -> ExprView
    decreases e,
{
    match e {
        Expr::Column { source, name, sql_type } => ExprView::Column {
            source: source@,
            name: name@,
            sql_type,
        },
        Expr::Bound(value) => ExprView::Bound(value@),
        Expr::Binary { op, left, right } => ExprView::Binary {
            op,
            left: Box::new(expr_view(*left)),
            right: Box::new(expr_view(*right)),
        },
        Expr::Call { function, argument } => ExprView::Call {
            function,
            argument: Box::new(expr_view(*argument)),
        },
    }
}

impl View for Expr {
    type V = ExprView;

    open spec fn view(&self) -> ExprView {
        expr_view(*self)
    }
}

impl Clone for Expr {
    fn clone(&self) -> (copy: Self)
        ensures
            copy == *self,
        decreases self,
    {
        match self {
            Expr::Column { source, name, sql_type } => Expr::Column {
                source: source.clone(),
                name: name.clone(),
                sql_type: *sql_type,
            },
            Expr::Bound(value) => Expr::Bound(value.clone()),
            Expr::Binary { op, left, right } => Expr::Binary {
                op: *op,
                left: Box::new((&**left).clone()),
                right: Box::new((&**right).clone()),
            },
            Expr::Call { function, argument } => Expr::Call {
                function: *function,
                argument: Box::new((&**argument).clone()),
            },
        }
    }
}

impl Expr {
    /// A reference to the column `name` of the source known as `source`.
    pub fn column(source: &str, name: &str, sql_type: SqlType) -> (e: Expr)
        ensures
            e@ == (ExprView::Column { source: source@, name: name@, sql_type }),
    {
        Expr::Column { source: source.to_owned(), name: name.to_owned(), sql_type }
    }

    /// The value `value` as a bind parameter.
    pub fn bound(value: Value) -> (e: Expr)
        ensures
            e@ == ExprView::Bound(value@),
    {
        Expr::Bound(value)
    }

    /// `left op right`.
    pub fn binary(op: BinaryOp, left: Expr, right: Expr) -> (e: Expr)
        ensures
            e@ == (ExprView::Binary { op, left: Box::new(left@), right: Box::new(right@) }),
    {
        Expr::Binary { op, left: Box::new(left), right: Box::new(right) }
    }

    /// `function(argument)`.
    pub fn call(function: Function, argument: Expr) -> (e: Expr)
        ensures
            e@ == (ExprView::Call { function, argument: Box::new(argument@) }),
    {
        Expr::Call { function, argument: Box::new(argument) }
    }
}

} // verus!
