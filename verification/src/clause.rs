//! Clause value objects: what each slot of a statement holds.
//!
//! The clauses carry data and nothing else; which expressions a slot accepts
//! is decided by the statement, and how a clause reads in SQL by the
//! renderer.

use vstd::prelude::*;

use crate::expression::{BinaryOp, Expr, ExprView};

verus! {

/// The name of a clause slot.
#[derive(Clone, Copy, PartialEq, Eq, Debug, Structural)]
pub enum Slot {
    Select,
    From,
    Distinct,
    Where,
    GroupBy,
    Order,
    Limit,
    Offset,
    With,
}

/// The select slot: every column of the base source, or one expression.
#[derive(Debug, PartialEq, Eq)]
pub enum SelectClause {
    AllColumns,
    Expression(Expr),
}

/// The mathematical model of a [`SelectClause`].
pub enum SelectView {
    AllColumns,
    Expression(ExprView),
}

impl View for SelectClause {
    type V = SelectView;

    open spec fn view(&self) -> SelectView {
        match *self {
            SelectClause::AllColumns => SelectView::AllColumns,
            SelectClause::Expression(e) => SelectView::Expression(e@),
        }
    }
}

impl Clone for SelectClause {
    fn clone(&self) -> (copy: Self)
        ensures
            copy == *self,
    {
        match self {
            SelectClause::AllColumns => SelectClause::AllColumns,
            SelectClause::Expression(e) => SelectClause::Expression(e.clone()),
        }
    }
}

/// The distinct slot: a marker, set or not.
#[derive(Clone, Copy, PartialEq, Eq, Debug, Structural)]
pub enum DistinctClause {
    NoDistinct,
    Distinct,
}

impl View for DistinctClause {
    type V = bool;

    open spec fn view(&self) -> bool {
        *self == DistinctClause::Distinct
    }
}

/// The where slot: no predicate, or one.
#[derive(Debug, PartialEq, Eq)]
pub enum WhereClause {
    NoWhere,
    Where(Expr),
}

impl View for WhereClause {
    type V = Option<ExprView>;

    open spec fn view(&self) -> Option<ExprView> {
        match *self {
            WhereClause::NoWhere => None,
            WhereClause::Where(e) => Some(e@),
        }
    }
}

impl Clone for WhereClause {
    fn clone(&self) -> (copy: Self)
        ensures
            copy == *self,
    {
        match self {
            WhereClause::NoWhere => WhereClause::NoWhere,
            WhereClause::Where(e) => WhereClause::Where(e.clone()),
        }
    }
}

/// The conjunction `left AND right`.
pub open spec fn conjunction(left: ExprView, right: ExprView) -> ExprView {
    ExprView::Binary { op: BinaryOp::And, left: Box::new(left), right: Box::new(right) }
}

/// The content of a where slot after `predicate` has been added to it: the
/// predicate alone if the slot was empty, else the conjunction of what the
/// slot held, on the left, and the predicate, on the right.
pub open spec fn where_and(slot: Option<ExprView>, predicate: ExprView) -> Option<ExprView> {
    match slot {
        None => Some(predicate),
        Some(held) => Some(conjunction(held, predicate)),
    }
}

impl WhereClause {
    /// The clause with `predicate` added as the right-hand operand of a
    /// conjunction.
    pub fn and(self, predicate: Expr) -> (merged: WhereClause)
        ensures
            merged@ == where_and(self@, predicate@),
    {
        match self {
            WhereClause::NoWhere => WhereClause::Where(predicate),
            WhereClause::Where(held) => WhereClause::Where(
                Expr::binary(BinaryOp::And, held, predicate),
            ),
        }
    }
}

/// The group-by slot: no grouping expression, or one.
#[derive(Debug, PartialEq, Eq)]
pub enum GroupByClause {
    NoGroupBy,
    GroupBy(Expr),
}

impl View for GroupByClause {
    type V = Option<ExprView>;

    open spec fn view(&self) -> Option<ExprView> {
        match *self {
            GroupByClause::NoGroupBy => None,
            GroupByClause::GroupBy(e) => Some(e@),
        }
    }
}

impl Clone for GroupByClause {
    fn clone(&self) -> (copy: Self)
        ensures
            copy == *self,
    {
        match self {
            GroupByClause::NoGroupBy => GroupByClause::NoGroupBy,
            GroupByClause::GroupBy(e) => GroupByClause::GroupBy(e.clone()),
        }
    }
}

/// The order slot: no ordering expression, or one.
#[derive(Debug, PartialEq, Eq)]
pub enum OrderClause {
    NoOrder,
    Order(Expr),
}

impl View for OrderClause {
    type V = Option<ExprView>;

    open spec fn view(&self) -> Option<ExprView> {
        match *self {
            OrderClause::NoOrder => None,
            OrderClause::Order(e) => Some(e@),
        }
    }
}

impl Clone for OrderClause {
    fn clone(&self) -> (copy: Self)
        ensures
            copy == *self,
    {
        match self {
            OrderClause::NoOrder => OrderClause::NoOrder,
            OrderClause::Order(e) => OrderClause::Order(e.clone()),
        }
    }
}

/// The limit slot: no limit, or a row count sent as a bind parameter.
#[derive(Clone, Copy, PartialEq, Eq, Debug, Structural)]
pub enum LimitClause {
    NoLimit,
    Limit(i64),
}

impl View for LimitClause {
    type V = Option<i64>;

    open spec fn view(&self) -> Option<i64> {
        match *self {
            LimitClause::NoLimit => None,
            LimitClause::Limit(n) => Some(n),
        }
    }
}

/// The offset slot: no offset, or a row count sent as a bind parameter.
#[derive(Clone, Copy, PartialEq, Eq, Debug, Structural)]
pub enum OffsetClause {
    NoOffset,
    Offset(i64),
}

impl View for OffsetClause {
    type V = Option<i64>;

    open spec fn view(&self) -> Option<i64> {
        match *self {
            OffsetClause::NoOffset => None,
            OffsetClause::Offset(n) => Some(n),
        }
    }
}

} // verus!
