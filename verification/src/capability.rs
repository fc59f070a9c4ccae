//! Capability predicates: what an expression must satisfy before a clause
//! accepts it.
//!
//! The predicates are stated over [`ExprView`]; each has an executable
//! check on [`Expr`] that is proved to decide it.

use vstd::prelude::*;

use crate::expression::{BinaryOp, Expr, ExprView, Function};
use crate::source::{FromClause, FromView};
use crate::types::SqlType;

verus! {

/// The name of a capability predicate.
#[derive(Clone, Copy, PartialEq, Eq, Debug, Structural)]
pub enum Capability {
    /// The expression has a determinate value type.
    Typed,
    /// The expression has the value type `Bool`.
    BooleanTyped,
    /// The expression holds no aggregate function.
    NonAggregate,
    /// Every column the expression refers to is visible in the from slot.
    SelectableFrom,
    /// The sources of the from slot are valid and known under distinct names.
    ValidSource,
}

impl BinaryOp {
    /// The type of `left op right` for operands of the given types, if the
    /// operator accepts them: logical operators take two booleans, pattern
    /// operators two texts, comparisons two operands of one type; all yield
    /// a boolean.
    pub open spec fn result_type(self, left: SqlType, right: SqlType) -> Option<SqlType> {
        if self.is_logical() {
            if left == SqlType::Bool && right == SqlType::Bool {
                Some(SqlType::Bool)
            } else {
                None
            }
        } else if self.is_pattern() {
            if left == SqlType::Text && right == SqlType::Text {
                Some(SqlType::Bool)
            } else {
                None
            }
        } else if left == right {
            Some(SqlType::Bool)
        } else {
            None
        }
    }

    /// The type of `left op right`, if the operator accepts the operands.
    pub fn check(self, left: SqlType, right: SqlType) -> (t: Option<SqlType>)
        ensures
            t == self.result_type(left, right),
    {
        let accepted = match self {
            BinaryOp::And | BinaryOp::Or => left == SqlType::Bool && right == SqlType::Bool,
            BinaryOp::Like | BinaryOp::ILike => left == SqlType::Text && right == SqlType::Text,
            _ => left == right,
        };
        if accepted {
            Some(SqlType::Bool)
        } else {
            None
        }
    }
}

impl Function {
    /// The type of `function(argument)` for an argument of the given type,
    /// if the function accepts it.
    pub open spec fn result_type(self, argument: SqlType) -> Option<SqlType> {
        match self {
            Function::Count => Some(SqlType::BigInt),
            Function::Max | Function::Min => if argument != SqlType::Bool {
                Some(argument)
            } else {
                None
            },
            Function::BoolAnd => if argument == SqlType::Bool {
                Some(SqlType::Bool)
            } else {
                None
            },
            Function::Lower | Function::Upper => if argument == SqlType::Text {
                Some(SqlType::Text)
            } else {
                None
            },
        }
    }

    /// The type of `function(argument)`, if the function accepts the
    /// argument.
    pub fn check(self, argument: SqlType) -> (t: Option<SqlType>)
        ensures
            t == self.result_type(argument),
    {
        match self {
            Function::Count => Some(SqlType::BigInt),
            Function::Max | Function::Min => if argument != SqlType::Bool {
                Some(argument)
            } else {
                None
            },
            Function::BoolAnd => if argument == SqlType::Bool {
                Some(SqlType::Bool)
            } else {
                None
            },
            Function::Lower | Function::Upper => if argument == SqlType::Text {
                Some(SqlType::Text)
            } else {
                None
            },
        }
    }

    /// Whether the function folds many rows into one value.
    pub fn folds_rows(self) -> (aggregate: bool)
        ensures
            aggregate == self.is_aggregate(),
    {
        match self {
            Function::Count | Function::Max | Function::Min | Function::BoolAnd => true,
            _ => false,
        }
    }
}

impl ExprView {
    /// The value type of the expression, or `None` where an operator or a
    /// function is applied to operands it does not accept.
    pub open spec fn type_of(self) -> Option<SqlType>
        decreases self,
    {
        match self {
            ExprView::Column { sql_type, .. } => Some(sql_type),
            ExprView::Bound(value) => Some(value.sql_type()),
            ExprView::Binary { op, left, right } => match (left.type_of(), right.type_of()) {
                (Some(l), Some(r)) => op.result_type(l, r),
                _ => None,
            },
            ExprView::Call { function, argument } => match argument.type_of() {
                Some(a) => function.result_type(a),
                None => None,
            },
        }
    }

    /// Typed: the expression has a determinate value type.
    pub open spec fn typed(self) -> bool {
        self.type_of() is Some
    }

    /// Boolean-typed: the expression has the value type `Bool`.
    pub open spec fn boolean_typed(self) -> bool {
        self.type_of() == Some(SqlType::Bool)
    }

    /// Non-aggregate: no aggregate function occurs in the expression.
    pub open spec fn non_aggregate(self) -> bool
        decreases self,
    {
        match self {
            ExprView::Column { .. } => true,
            ExprView::Bound(_) => true,
            ExprView::Binary { left, right, .. } => left.non_aggregate() && right.non_aggregate(),
            ExprView::Call { function, argument } => !function.is_aggregate()
                && argument.non_aggregate(),
        }
    }

    /// Selectable-from: every column the expression refers to is exposed by
    /// `from`, under the source name and with the type the reference gives.
    pub open spec fn selectable_from(self, from: FromView) -> bool
        decreases self,
    {
        match self {
            ExprView::Column { source, name, sql_type } => from.exposes(source, name, sql_type),
            ExprView::Bound(_) => true,
            ExprView::Binary { left, right, .. } => left.selectable_from(from)
                && right.selectable_from(from),
            ExprView::Call { argument, .. } => argument.selectable_from(from),
        }
    }
}

/// An expression selectable from a composition stays selectable when another
/// source is merged into the composition.
pub proof fn lemma_merge_selectable(e: ExprView, from: FromView, sub: crate::source::AliasedView)
    requires
        e.selectable_from(from),
    ensures
        e.selectable_from(from.merge(sub)),
    decreases e,
{
    match e {
        ExprView::Column { source, name, sql_type } => {
            crate::source::lemma_merge_exposes(from, sub, source, name, sql_type);
        },
        ExprView::Bound(_) => {},
        ExprView::Binary { left, right, .. } => {
            lemma_merge_selectable(*left, from, sub);
            lemma_merge_selectable(*right, from, sub);
        },
        ExprView::Call { argument, .. } => {
            lemma_merge_selectable(*argument, from, sub);
        },
    }
}

impl Expr {
    /// The value type of the expression, if it has one.
    pub fn type_of(&self) -> (t: Option<SqlType>)
        ensures
            t == self@.type_of(),
        decreases self,
    {
        match self {
            Expr::Column { sql_type, .. } => Some(*sql_type),
            Expr::Bound(value) => Some(value.sql_type()),
            Expr::Binary { op, left, right } => {
                match (left.type_of(), right.type_of()) {
                    (Some(l), Some(r)) => op.check(l, r),
                    _ => None,
                }
            },
            Expr::Call { function, argument } => {
                match argument.type_of() {
                    Some(a) => function.check(a),
                    None => None,
                }
            },
        }
    }

    /// Whether no aggregate function occurs in the expression.
    pub fn is_non_aggregate(&self) -> (plain: bool)
        ensures
            plain == self@.non_aggregate(),
        decreases self,
    {
        match self {
            Expr::Column { .. } => true,
            Expr::Bound(_) => true,
            Expr::Binary { left, right, .. } => left.is_non_aggregate() && right.is_non_aggregate(),
            Expr::Call { function, argument } => !function.folds_rows()
                && argument.is_non_aggregate(),
        }
    }

    /// Whether every column the expression refers to is exposed by `from`.
    pub fn is_selectable_from(&self, from: &FromClause) -> (visible: bool)
        ensures
            visible == self@.selectable_from(from@),
        decreases self,
    {
        match self {
            Expr::Column { source, name, sql_type } => from.exposes(source, name, *sql_type),
            Expr::Bound(_) => true,
            Expr::Binary { left, right, .. } => left.is_selectable_from(from)
                && right.is_selectable_from(from),
            Expr::Call { argument, .. } => argument.is_selectable_from(from),
        }
    }
}

} // verus!
