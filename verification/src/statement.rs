//! The select statement: one clause per slot, and the transformations that
//! lead from one statement to the next.
//!
//! A statement is immutable. Each transformation borrows its receiver,
//! checks what it is given against the capability predicates the slot asks
//! for, and returns a new statement that differs from the receiver in that
//! slot alone, or the first predicate that failed. Every statement that
//! exists is valid in the sense of [`StatementView::valid`]. All statements
//! have one type, so a caller can attach a clause in one branch and leave it
//! out in another.

use vstd::prelude::*;

use crate::capability::{lemma_merge_selectable, Capability};
use crate::clause::{
    where_and, DistinctClause, GroupByClause, LimitClause, OffsetClause, OrderClause,
    SelectClause, SelectView, Slot, WhereClause,
};
use crate::error::ValidityError;
use crate::expression::{Expr, ExprView};
use crate::source::{
    lemma_merge_valid, Aliased, AliasedView, ColumnView, FromClause, FromView, Source,
    SourceView,
};
use crate::types::SqlType;

verus! {

/// The mathematical model of a [`SelectStatement`]: the content of each
/// slot.
pub struct StatementView {
    pub select: SelectView,
    pub from: FromView,
    pub distinct: bool,
    pub where_clause: Option<ExprView>,
    pub group_by: Option<ExprView>,
    pub order: Option<ExprView>,
    pub limit: Option<i64>,
    pub offset: Option<i64>,
}

/// The first capability predicate, in the order typed, selectable-from,
/// that keeps `e` out of the select slot or the order slot of a statement
/// over `from`; `None` if the slot accepts `e`.
pub open spec fn selection_rejection(from: FromView, e: ExprView) -> Option<Capability> {
    if !e.typed() {
        Some(Capability::Typed)
    } else if !e.selectable_from(from) {
        Some(Capability::SelectableFrom)
    } else {
        None
    }
}

/// The first capability predicate, in the order typed, boolean-typed,
/// non-aggregate, selectable-from, that keeps `predicate` out of the where
/// slot of a statement over `from`; `None` if the slot accepts it.
pub open spec fn filter_rejection(from: FromView, predicate: ExprView) -> Option<Capability> {
    if !predicate.typed() {
        Some(Capability::Typed)
    } else if !predicate.boolean_typed() {
        Some(Capability::BooleanTyped)
    } else if !predicate.non_aggregate() {
        Some(Capability::NonAggregate)
    } else if !predicate.selectable_from(from) {
        Some(Capability::SelectableFrom)
    } else {
        None
    }
}

/// The capability predicate that keeps `e` out of the group-by slot: the
/// slot asks for a typed expression and nothing more.
pub open spec fn grouping_rejection(e: ExprView) -> Option<Capability> {
    if !e.typed() {
        Some(Capability::Typed)
    } else {
        None
    }
}

impl StatementView {
    /// The statement that selects every column of `source` and has no other
    /// clause.
    pub open spec fn base(source: SourceView) -> StatementView {
        StatementView {
            select: SelectView::AllColumns,
            from: FromView { base: source, merged: Seq::empty() },
            distinct: false,
            where_clause: None,
            group_by: None,
            order: None,
            limit: None,
            offset: None,
        }
    }

    /// What every statement satisfies: the from slot is a valid
    /// composition, and each other slot holds only what it accepts.
    pub open spec fn valid(self) -> bool {
        &&& self.from.valid()
        &&& match self.select {
            SelectView::AllColumns => true,
            SelectView::Expression(e) => selection_rejection(self.from, e) is None,
        }
        &&& match self.where_clause {
            None => true,
            Some(p) => filter_rejection(self.from, p) is None,
        }
        &&& match self.group_by {
            None => true,
            Some(e) => grouping_rejection(e) is None,
        }
        &&& match self.order {
            None => true,
            Some(e) => selection_rejection(self.from, e) is None,
        }
    }

    /// The statement with `selection` in the select slot.
    pub open spec fn select(self, selection: ExprView) -> StatementView {
        StatementView { select: SelectView::Expression(selection), ..self }
    }

    /// The statement with the distinct marker set.
    pub open spec fn distinct(self) -> StatementView {
        StatementView { distinct: true, ..self }
    }

    /// The statement with `predicate` added to the where slot.
    pub open spec fn filter(self, predicate: ExprView) -> StatementView {
        StatementView { where_clause: where_and(self.where_clause, predicate), ..self }
    }

    /// The statement with `e` in the order slot.
    pub open spec fn order(self, e: ExprView) -> StatementView {
        StatementView { order: Some(e), ..self }
    }

    /// The statement with `n` in the limit slot.
    pub open spec fn limit(self, n: i64) -> StatementView {
        StatementView { limit: Some(n), ..self }
    }

    /// The statement with `n` in the offset slot.
    pub open spec fn offset(self, n: i64) -> StatementView {
        StatementView { offset: Some(n), ..self }
    }

    /// The statement with `sub` merged into the from slot.
    pub open spec fn with(self, sub: AliasedView) -> StatementView {
        StatementView { from: self.from.merge(sub), ..self }
    }

    /// The statement with `e` in the group-by slot.
    pub open spec fn group_by(self, e: ExprView) -> StatementView {
        StatementView { group_by: Some(e), ..self }
    }

    /// The types of the values in one result row: those of the base
    /// source's columns, or that of the selected expression.
    pub open spec fn row_type(self) -> Seq<SqlType> {
        match self.select {
            SelectView::AllColumns => self.from.base.columns.map_values(
                |c: ColumnView| c.sql_type,
            ),
            SelectView::Expression(e) => seq![e.type_of().unwrap()],
        }
    }
}

/// A select statement.
#[derive(Debug, PartialEq, Eq)]
pub struct SelectStatement {
    select: SelectClause,
    from: FromClause,
    distinct: DistinctClause,
    where_clause: WhereClause,
    group_by: GroupByClause,
    order: OrderClause,
    limit: LimitClause,
    offset: OffsetClause,
}

impl View for SelectStatement {
    type V = StatementView;

    closed spec fn view(&self) -> StatementView {
        StatementView {
            select: self.select@,
            from: self.from@,
            distinct: self.distinct@,
            where_clause: self.where_clause@,
            group_by: self.group_by@,
            order: self.order@,
            limit: self.limit@,
            offset: self.offset@,
        }
    }
}

impl Clone for SelectStatement {
    fn clone(&self) -> (copy: Self)
        ensures
            copy@ == self@,
    {
        proof {
            use_type_invariant(self);
        }
        SelectStatement {
            select: self.select.clone(),
            from: self.from.clone(),
            distinct: self.distinct,
            where_clause: self.where_clause.clone(),
            group_by: self.group_by.clone(),
            order: self.order.clone(),
            limit: self.limit,
            offset: self.offset,
        }
    }
}

impl SelectStatement {
    /// Every statement is valid.
    #[verifier::type_invariant]
    pub open spec fn well_formed(self) -> bool {
        self@.valid()
    }

    /// The statement that selects every column of `source`, provided that
    /// `source` is valid.
    pub fn new(source: Source) -> (result: Result<SelectStatement, ValidityError>)
        ensures
            match result {
                Ok(statement) => source@.valid() && statement@ == StatementView::base(source@)
                    && statement@.valid(),
                Err(error) => !source@.valid() && error == (ValidityError {
                    predicate: Capability::ValidSource,
                    clause: Slot::From,
                }),
            },
    {
        if !source.is_valid() {
            return Err(ValidityError { predicate: Capability::ValidSource, clause: Slot::From });
        }
        Ok(
            SelectStatement {
                select: SelectClause::AllColumns,
                from: FromClause::new(source),
                distinct: DistinctClause::NoDistinct,
                where_clause: WhereClause::NoWhere,
                group_by: GroupByClause::NoGroupBy,
                order: OrderClause::NoOrder,
                limit: LimitClause::NoLimit,
                offset: OffsetClause::NoOffset,
            },
        )
    }

    /// Replaces the select slot by `selection`, which must be typed and
    /// selectable from the from slot.
    pub fn select(&self, selection: Expr) -> (result: Result<SelectStatement, ValidityError>)
        ensures
            match result {
                Ok(statement) => selection_rejection(self@.from, selection@) is None
                    && statement@ == self@.select(selection@) && statement@.valid(),
                Err(error) => selection_rejection(self@.from, selection@) == Some(error.predicate)
                    && error.clause == Slot::Select,
            },
    {
        proof {
            use_type_invariant(self);
        }
        if selection.type_of().is_none() {
            return Err(ValidityError { predicate: Capability::Typed, clause: Slot::Select });
        }
        if !selection.is_selectable_from(&self.from) {
            return Err(
                ValidityError { predicate: Capability::SelectableFrom, clause: Slot::Select },
            );
        }
        Ok(
            SelectStatement {
                select: SelectClause::Expression(selection),
                from: self.from.clone(),
                distinct: self.distinct,
                where_clause: self.where_clause.clone(),
                group_by: self.group_by.clone(),
                order: self.order.clone(),
                limit: self.limit,
                offset: self.offset,
            },
        )
    }

    /// Sets the distinct marker.
    pub fn distinct(&self) -> (statement: SelectStatement)
        ensures
            statement@ == self@.distinct(),
            statement@.valid(),
    {
        proof {
            use_type_invariant(self);
        }
        SelectStatement {
            select: self.select.clone(),
            from: self.from.clone(),
            distinct: DistinctClause::Distinct,
            where_clause: self.where_clause.clone(),
            group_by: self.group_by.clone(),
            order: self.order.clone(),
            limit: self.limit,
            offset: self.offset,
        }
    }

    /// Adds `predicate` to the where slot, as the right-hand operand of a
    /// conjunction with what the slot holds. The predicate must be typed,
    /// boolean-typed, non-aggregate and selectable from the from slot.
    pub fn filter(&self, predicate: Expr) -> (result: Result<SelectStatement, ValidityError>)
        ensures
            match result {
                Ok(statement) => filter_rejection(self@.from, predicate@) is None && statement@
                    == self@.filter(predicate@) && statement@.valid(),
                Err(error) => filter_rejection(self@.from, predicate@) == Some(error.predicate)
                    && error.clause == Slot::Where,
            },
    {
        proof {
            use_type_invariant(self);
        }
        match predicate.type_of() {
            None => {
                return Err(ValidityError { predicate: Capability::Typed, clause: Slot::Where });
            },
            Some(sql_type) => {
                if sql_type != SqlType::Bool {
                    return Err(
                        ValidityError { predicate: Capability::BooleanTyped, clause: Slot::Where },
                    );
                }
            },
        }
        if !predicate.is_non_aggregate() {
            return Err(ValidityError { predicate: Capability::NonAggregate, clause: Slot::Where });
        }
        if !predicate.is_selectable_from(&self.from) {
            return Err(
                ValidityError { predicate: Capability::SelectableFrom, clause: Slot::Where },
            );
        }
        Ok(
            SelectStatement {
                select: self.select.clone(),
                from: self.from.clone(),
                distinct: self.distinct,
                where_clause: self.where_clause.clone().and(predicate),
                group_by: self.group_by.clone(),
                order: self.order.clone(),
                limit: self.limit,
                offset: self.offset,
            },
        )
    }

    /// Replaces the order slot by `e`, which must be typed and selectable
    /// from the from slot.
    pub fn order(&self, e: Expr) -> (result: Result<SelectStatement, ValidityError>)
        ensures
            match result {
                Ok(statement) => selection_rejection(self@.from, e@) is None && statement@
                    == self@.order(e@) && statement@.valid(),
                Err(error) => selection_rejection(self@.from, e@) == Some(error.predicate)
                    && error.clause == Slot::Order,
            },
    {
        proof {
            use_type_invariant(self);
        }
        if e.type_of().is_none() {
            return Err(ValidityError { predicate: Capability::Typed, clause: Slot::Order });
        }
        if !e.is_selectable_from(&self.from) {
            return Err(
                ValidityError { predicate: Capability::SelectableFrom, clause: Slot::Order },
            );
        }
        Ok(
            SelectStatement {
                select: self.select.clone(),
                from: self.from.clone(),
                distinct: self.distinct,
                where_clause: self.where_clause.clone(),
                group_by: self.group_by.clone(),
                order: OrderClause::Order(e),
                limit: self.limit,
                offset: self.offset,
            },
        )
    }

    /// Replaces the limit slot by the row count `n`.
    pub fn limit(&self, n: i64) -> (statement: SelectStatement)
        ensures
            statement@ == self@.limit(n),
            statement@.valid(),
    {
        proof {
            use_type_invariant(self);
        }
        SelectStatement {
            select: self.select.clone(),
            from: self.from.clone(),
            distinct: self.distinct,
            where_clause: self.where_clause.clone(),
            group_by: self.group_by.clone(),
            order: self.order.clone(),
            limit: LimitClause::Limit(n),
            offset: self.offset,
        }
    }

    /// Replaces the offset slot by the row count `n`.
    pub fn offset(&self, n: i64) -> (statement: SelectStatement)
        ensures
            statement@ == self@.offset(n),
            statement@.valid(),
    {
        proof {
            use_type_invariant(self);
        }
        SelectStatement {
            select: self.select.clone(),
            from: self.from.clone(),
            distinct: self.distinct,
            where_clause: self.where_clause.clone(),
            group_by: self.group_by.clone(),
            order: self.order.clone(),
            limit: self.limit,
            offset: OffsetClause::Offset(n),
        }
    }

    /// Merges `sub` into the from slot, provided that the composition stays
    /// valid: `sub` is a valid source, and its alias is not yet the name of
    /// a visible source.
    pub fn with(&self, sub: Aliased) -> (result: Result<SelectStatement, ValidityError>)
        ensures
            match result {
                Ok(statement) => self@.from.merge(sub@).valid() && statement@ == self@.with(sub@)
                    && statement@.valid(),
                Err(error) => !self@.from.merge(sub@).valid() && error == (ValidityError {
                    predicate: Capability::ValidSource,
                    clause: Slot::With,
                }),
            },
    {
        proof {
            use_type_invariant(self);
            lemma_merge_valid(self@.from, sub@);
        }
        if !self.from.admits(&sub) {
            return Err(ValidityError { predicate: Capability::ValidSource, clause: Slot::With });
        }
        proof {
            lemma_with_valid(self@, sub@);
        }
        Ok(
            SelectStatement {
                select: self.select.clone(),
                from: self.from.merge(sub),
                distinct: self.distinct,
                where_clause: self.where_clause.clone(),
                group_by: self.group_by.clone(),
                order: self.order.clone(),
                limit: self.limit,
                offset: self.offset,
            },
        )
    }

    /// Replaces the group-by slot by `e`, which must be typed. The
    /// expression is not held against the select slot.
    pub fn group_by(&self, e: Expr) -> (result: Result<SelectStatement, ValidityError>)
        ensures
            match result {
                Ok(statement) => grouping_rejection(e@) is None && statement@ == self@.group_by(e@)
                    && statement@.valid(),
                Err(error) => grouping_rejection(e@) == Some(error.predicate) && error.clause
                    == Slot::GroupBy,
            },
    {
        proof {
            use_type_invariant(self);
        }
        if e.type_of().is_none() {
            return Err(ValidityError { predicate: Capability::Typed, clause: Slot::GroupBy });
        }
        Ok(
            SelectStatement {
                select: self.select.clone(),
                from: self.from.clone(),
                distinct: self.distinct,
                where_clause: self.where_clause.clone(),
                group_by: GroupByClause::GroupBy(e),
                order: self.order.clone(),
                limit: self.limit,
                offset: self.offset,
            },
        )
    }

    /// The content of the select slot.
    pub fn select_clause(&self) -> (clause: &SelectClause)
        ensures
            clause@ == self@.select,
    {
        &self.select
    }

    /// The content of the from slot.
    pub fn from_clause(&self) -> (clause: &FromClause)
        ensures
            clause@ == self@.from,
    {
        &self.from
    }

    /// The content of the distinct slot.
    pub fn distinct_clause(&self) -> (clause: DistinctClause)
        ensures
            clause@ == self@.distinct,
    {
        self.distinct
    }

    /// The content of the where slot.
    pub fn where_clause(&self) -> (clause: &WhereClause)
        ensures
            clause@ == self@.where_clause,
    {
        &self.where_clause
    }

    /// The content of the group-by slot.
    pub fn group_by_clause(&self) -> (clause: &GroupByClause)
        ensures
            clause@ == self@.group_by,
    {
        &self.group_by
    }

    /// The content of the order slot.
    pub fn order_clause(&self) -> (clause: &OrderClause)
        ensures
            clause@ == self@.order,
    {
        &self.order
    }

    /// The content of the limit slot.
    pub fn limit_clause(&self) -> (clause: LimitClause)
        ensures
            clause@ == self@.limit,
    {
        self.limit
    }

    /// The content of the offset slot.
    pub fn offset_clause(&self) -> (clause: OffsetClause)
        ensures
            clause@ == self@.offset,
    {
        self.offset
    }

    /// The types of the values in one result row.
    pub fn row_type(&self) -> (types: Vec<SqlType>)
        ensures
            types@ == self@.row_type(),
    {
        proof {
            use_type_invariant(self);
        }
        let mut types: Vec<SqlType> = Vec::new();
        match &self.select {
            SelectClause::AllColumns => {
                let columns = &self.from.base.columns;
                let mut i: usize = 0;
                while i < columns.len()
                    invariant
                        i <= columns.len(),
                        types.len() == i,
                        forall|k: int| 0 <= k < i ==> types[k] == (#[trigger] columns[k]).sql_type,
                    decreases columns.len() - i,
                {
                    types.push(columns[i].sql_type);
                    i = i + 1;
                }
                assert(types@ =~= self@.row_type());
            },
            SelectClause::Expression(e) => {
                if let Some(sql_type) = e.type_of() {
                    types.push(sql_type);
                }
                assert(types@ =~= self@.row_type());
            },
        }
        types
    }
}

/// Merging an admitted source into the from slot of a valid statement
/// leaves the statement valid: what the other slots hold stays selectable.
pub proof fn lemma_with_valid(statement: StatementView, sub: AliasedView)
    requires
        statement.valid(),
        statement.from.merge(sub).valid(),
    ensures
        statement.with(sub).valid(),
{
    match statement.select {
        SelectView::AllColumns => {},
        SelectView::Expression(e) => {
            lemma_merge_selectable(e, statement.from, sub);
        },
    }
    match statement.where_clause {
        None => {},
        Some(p) => {
            lemma_merge_selectable(p, statement.from, sub);
        },
    }
    match statement.order {
        None => {},
        Some(e) => {
            lemma_merge_selectable(e, statement.from, sub);
        },
    }
}

} // verus!
