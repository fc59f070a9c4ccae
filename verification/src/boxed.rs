//! The boxed statement: a statement erased for one backend.
//!
//! Boxing turns the content of every slot into a [`Fragment`], the one
//! renderable form shared by all clause kinds, and holds each fragment
//! behind a shared reference. A boxed statement is read-only: it can be
//! rendered any number of times, and renders as the statement it was made
//! from.

use std::sync::Arc;
use vstd::prelude::*;

use crate::backend::Backend;
use crate::clause::{
    DistinctClause, GroupByClause, LimitClause, OffsetClause, OrderClause, SelectClause,
    SelectView, WhereClause,
};
use crate::error::RenderError;
use crate::expression::{Expr, ExprView};
use crate::laws::law_boxing_preserves_rendering;
use crate::render::{
    count_binds, count_sql, distinct_sql, from_sql, optional_binds, optional_sql, select_binds,
    select_sql, Query, QueryBuilder,
};
use crate::source::{FromClause, FromView};
use crate::statement::{SelectStatement, StatementView};
use crate::types::{values_view, ValueView};

verus! {

/// The content of one slot in renderable form: one variant per clause kind.
#[derive(Debug, PartialEq, Eq)]
pub enum Fragment {
    Select(SelectClause),
    Distinct(DistinctClause),
    Where(Expr),
    GroupBy(GroupByClause),
    Order(OrderClause),
    Limit(LimitClause),
    Offset(OffsetClause),
}

/// The mathematical model of a [`Fragment`].
pub enum FragmentView {
    Select(SelectView),
    Distinct(bool),
    Where(ExprView),
    GroupBy(Option<ExprView>),
    Order(Option<ExprView>),
    Limit(Option<i64>),
    Offset(Option<i64>),
}

impl View for Fragment {
    type V = FragmentView;

    open spec fn view(&self) -> FragmentView {
        match *self {
            Fragment::Select(clause) => FragmentView::Select(clause@),
            Fragment::Distinct(clause) => FragmentView::Distinct(clause@),
            Fragment::Where(predicate) => FragmentView::Where(predicate@),
            Fragment::GroupBy(clause) => FragmentView::GroupBy(clause@),
            Fragment::Order(clause) => FragmentView::Order(clause@),
            Fragment::Limit(clause) => FragmentView::Limit(clause@),
            Fragment::Offset(clause) => FragmentView::Offset(clause@),
        }
    }
}

impl FragmentView {
    /// The text of the fragment in a statement whose base source is called
    /// `base`, where `bound` values have been bound before it.
    pub open spec fn sql(
        self,
        base: Seq<char>,
        backend: Backend,
        qualified: bool,
        bound: nat,
    ) -> Seq<char> {
        match self {
            FragmentView::Select(select) => select_sql(select, base, backend, qualified, bound),
            FragmentView::Distinct(distinct) => distinct_sql(distinct),
            FragmentView::Where(predicate) => optional_sql(
                " WHERE "@,
                Some(predicate),
                backend,
                qualified,
                bound,
            ),
            FragmentView::GroupBy(slot) => optional_sql(
                " GROUP BY "@,
                slot,
                backend,
                qualified,
                bound,
            ),
            FragmentView::Order(slot) => optional_sql(
                " ORDER BY "@,
                slot,
                backend,
                qualified,
                bound,
            ),
            FragmentView::Limit(slot) => count_sql(" LIMIT "@, slot, backend, bound),
            FragmentView::Offset(slot) => count_sql(" OFFSET "@, slot, backend, bound),
        }
    }

    /// The values the fragment binds.
    pub open spec fn binds(self) -> Seq<ValueView> {
        match self {
            FragmentView::Select(select) => select_binds(select),
            FragmentView::Distinct(_) => Seq::empty(),
            FragmentView::Where(predicate) => predicate.binds(),
            FragmentView::GroupBy(slot) => optional_binds(slot),
            FragmentView::Order(slot) => optional_binds(slot),
            FragmentView::Limit(slot) => count_binds(slot),
            FragmentView::Offset(slot) => count_binds(slot),
        }
    }
}

impl Fragment {
    /// Appends the fragment to `out`, for a statement over `from`.
    pub fn render(&self, from: &FromClause, out: &mut QueryBuilder)
        ensures
            final(out)@ == old(out)@.emit(
                self@.sql(
                    from@.base.name,
                    old(out).backend,
                    old(out).qualified,
                    old(out)@.binds.len(),
                ),
                self@.binds(),
            ),
    {
        match self {
            Fragment::Select(clause) => out.push_select(clause, from),
            Fragment::Distinct(clause) => out.push_distinct(*clause),
            Fragment::Where(predicate) => out.push_predicate(predicate),
            Fragment::GroupBy(clause) => out.push_group_by(clause),
            Fragment::Order(clause) => out.push_order(clause),
            Fragment::Limit(clause) => out.push_limit(*clause),
            Fragment::Offset(clause) => out.push_offset(*clause),
        }
    }
}

/// The mathematical model of a [`BoxedSelectStatement`]: the backend it was
/// made for and the fragment in each slot.
pub struct BoxedView {
    pub backend: Backend,
    pub select: FragmentView,
    pub from: FromView,
    pub distinct: FragmentView,
    pub where_clause: Option<FragmentView>,
    pub group_by: FragmentView,
    pub order: FragmentView,
    pub limit: FragmentView,
    pub offset: FragmentView,
}

/// The text of an optional fragment: nothing if it is absent.
pub open spec fn absent_or_sql(
    fragment: Option<FragmentView>,
    base: Seq<char>,
    backend: Backend,
    qualified: bool,
    bound: nat,
) -> Seq<char> {
    match fragment {
        None => Seq::empty(),
        Some(f) => f.sql(base, backend, qualified, bound),
    }
}

/// The values bound by an optional fragment: none if it is absent.
pub open spec fn absent_or_binds(fragment: Option<FragmentView>) -> Seq<ValueView> {
    match fragment {
        None => Seq::empty(),
        Some(f) => f.binds(),
    }
}

impl BoxedView {
    /// The bind parameters of the boxed statement, fragment by fragment in
    /// rendering order.
    pub open spec fn binds(self) -> Seq<ValueView> {
        self.select.binds() + self.distinct.binds() + absent_or_binds(self.where_clause)
            + self.group_by.binds() + self.order.binds() + self.limit.binds()
            + self.offset.binds()
    }

    /// The SQL text of the boxed statement, fragment by fragment in
    /// rendering order.
    pub open spec fn sql(self) -> Seq<char> {
        let base = self.from.base.name;
        let qualified = self.from.is_joined();
        let before_distinct = self.select.binds().len();
        let before_where = before_distinct + self.distinct.binds().len();
        let before_group_by = before_where + absent_or_binds(self.where_clause).len();
        let before_order = before_group_by + self.group_by.binds().len();
        let before_limit = before_order + self.order.binds().len();
        let before_offset = before_limit + self.limit.binds().len();
        self.select.sql(base, self.backend, qualified, 0)
            + from_sql(self.from)
            + self.distinct.sql(base, self.backend, qualified, before_distinct)
            + absent_or_sql(self.where_clause, base, self.backend, qualified, before_where)
            + self.group_by.sql(base, self.backend, qualified, before_group_by)
            + self.order.sql(base, self.backend, qualified, before_order)
            + self.limit.sql(base, self.backend, qualified, before_limit)
            + self.offset.sql(base, self.backend, qualified, before_offset)
    }

    /// The statement whose slots hold what the fragments hold.
    pub open spec fn origin(self) -> StatementView {
        StatementView {
            select: match self.select {
                FragmentView::Select(select) => select,
                _ => SelectView::AllColumns,
            },
            from: self.from,
            distinct: self.distinct == FragmentView::Distinct(true),
            where_clause: match self.where_clause {
                Some(FragmentView::Where(predicate)) => Some(predicate),
                _ => None,
            },
            group_by: match self.group_by {
                FragmentView::GroupBy(slot) => slot,
                _ => None,
            },
            order: match self.order {
                FragmentView::Order(slot) => slot,
                _ => None,
            },
            limit: match self.limit {
                FragmentView::Limit(slot) => slot,
                _ => None,
            },
            offset: match self.offset {
                FragmentView::Offset(slot) => slot,
                _ => None,
            },
        }
    }
}

impl StatementView {
    /// The statement erased for `backend`: each slot's content as a
    /// fragment. An empty where slot becomes an absent fragment.
    pub open spec fn boxed(self, backend: Backend) -> BoxedView {
        BoxedView {
            backend,
            select: FragmentView::Select(self.select),
            from: self.from,
            distinct: FragmentView::Distinct(self.distinct),
            where_clause: match self.where_clause {
                None => None,
                Some(predicate) => Some(FragmentView::Where(predicate)),
            },
            group_by: FragmentView::GroupBy(self.group_by),
            order: FragmentView::Order(self.order),
            limit: FragmentView::Limit(self.limit),
            offset: FragmentView::Offset(self.offset),
        }
    }
}

/// A statement erased for one backend.
#[derive(Debug)]
pub struct BoxedSelectStatement {
    backend: Backend,
    select: Arc<Fragment>,
    from: FromClause,
    distinct: Arc<Fragment>,
    where_clause: Option<Arc<Fragment>>,
    group_by: Arc<Fragment>,
    order: Arc<Fragment>,
    limit: Arc<Fragment>,
    offset: Arc<Fragment>,
}

impl View for BoxedSelectStatement {
    type V = BoxedView;

    closed spec fn view(&self) -> BoxedView {
        BoxedView {
            backend: self.backend,
            select: self.select@,
            from: self.from@,
            distinct: self.distinct@,
            where_clause: match self.where_clause {
                None => None,
                Some(fragment) => Some(fragment@),
            },
            group_by: self.group_by@,
            order: self.order@,
            limit: self.limit@,
            offset: self.offset@,
        }
    }
}

impl BoxedSelectStatement {
    /// Every boxed statement holds the fragments of a valid statement that
    /// its backend can express.
    #[verifier::type_invariant]
    pub open spec fn well_formed(self) -> bool {
        &&& self@ == self@.origin().boxed(self@.backend)
        &&& self@.origin().valid()
        &&& self@.origin().unsupported(self@.backend) is None
    }

    /// The backend the statement was boxed for.
    pub fn backend(&self) -> (backend: Backend)
        ensures
            backend == self@.backend,
    {
        self.backend
    }

    /// The fragment in the select slot.
    pub fn select_fragment(&self) -> (fragment: &Arc<Fragment>)
        ensures
            fragment@ == self@.select,
    {
        &self.select
    }

    /// The content of the from slot, which is kept as it was.
    pub fn from_clause(&self) -> (clause: &FromClause)
        ensures
            clause@ == self@.from,
    {
        &self.from
    }

    /// The fragment in the distinct slot.
    pub fn distinct_fragment(&self) -> (fragment: &Arc<Fragment>)
        ensures
            fragment@ == self@.distinct,
    {
        &self.distinct
    }

    /// The fragment in the where slot, absent if the slot is empty.
    pub fn where_fragment(&self) -> (fragment: Option<&Arc<Fragment>>)
        ensures
            match fragment {
                Some(f) => self@.where_clause == Some(f@),
                None => self@.where_clause is None,
            },
    {
        match &self.where_clause {
            Some(f) => Some(f),
            None => None,
        }
    }

    /// The fragment in the group-by slot.
    pub fn group_by_fragment(&self) -> (fragment: &Arc<Fragment>)
        ensures
            fragment@ == self@.group_by,
    {
        &self.group_by
    }

    /// The fragment in the order slot.
    pub fn order_fragment(&self) -> (fragment: &Arc<Fragment>)
        ensures
            fragment@ == self@.order,
    {
        &self.order
    }

    /// The fragment in the limit slot.
    pub fn limit_fragment(&self) -> (fragment: &Arc<Fragment>)
        ensures
            fragment@ == self@.limit,
    {
        &self.limit
    }

    /// The fragment in the offset slot.
    pub fn offset_fragment(&self) -> (fragment: &Arc<Fragment>)
        ensures
            fragment@ == self@.offset,
    {
        &self.offset
    }

    /// Renders the boxed statement for its backend: the SQL text and the
    /// bind parameters of its fragments, in rendering order. The fragments
    /// are those of a valid statement that the backend can express, and the
    /// result is what that statement renders to.
    pub fn render(&self) -> (query: Query)
        ensures
            query.sql@ == self@.sql(),
            values_view(query.binds@) == self@.binds(),
            self@ == self@.origin().boxed(self@.backend),
            self@.origin().valid(),
            self@.origin().unsupported(self@.backend) is None,
            query.sql@ == self@.origin().sql(self@.backend),
            values_view(query.binds@) == self@.origin().binds(),
    {
        proof {
            use_type_invariant(self);
            law_boxing_preserves_rendering(self@.origin(), self@.backend);
        }
        let mut out = QueryBuilder::new(self.backend, self.from.is_joined());
        self.select.render(&self.from, &mut out);
        out.push_from(&self.from);
        self.distinct.render(&self.from, &mut out);
        if let Some(fragment) = &self.where_clause {
            fragment.render(&self.from, &mut out);
        }
        self.group_by.render(&self.from, &mut out);
        self.order.render(&self.from, &mut out);
        self.limit.render(&self.from, &mut out);
        self.offset.render(&self.from, &mut out);
        assert(out@.sql =~= self@.sql());
        assert(out@.binds =~= self@.binds());
        out.finish()
    }
}

impl SelectStatement {
    /// Erases the statement for `backend`, provided that the backend can
    /// express every construct in it; else the first construct, in
    /// rendering order, that it cannot express.
    pub fn internal_into_boxed(&self, backend: Backend) -> (result: Result<
        BoxedSelectStatement,
        RenderError,
    >)
        ensures
            match result {
                Ok(boxed) => self@.unsupported(backend) is None && boxed@ == self@.boxed(backend),
                Err(error) => self@.unsupported(backend) == Some(error.construct) && error.backend
                    == backend,
            },
    {
        proof {
            use_type_invariant(self);
        }
        if let Some(construct) = self.first_unsupported(backend) {
            return Err(RenderError { backend, construct });
        }
        let where_clause = match self.where_clause() {
            WhereClause::NoWhere => None,
            WhereClause::Where(predicate) => Some(Arc::new(Fragment::Where(predicate.clone()))),
        };
        Ok(
            BoxedSelectStatement {
                backend,
                select: Arc::new(Fragment::Select(self.select_clause().clone())),
                from: self.from_clause().clone(),
                distinct: Arc::new(Fragment::Distinct(self.distinct_clause())),
                where_clause,
                group_by: Arc::new(Fragment::GroupBy(self.group_by_clause().clone())),
                order: Arc::new(Fragment::Order(self.order_clause().clone())),
                limit: Arc::new(Fragment::Limit(self.limit_clause())),
                offset: Arc::new(Fragment::Offset(self.offset_clause())),
            },
        )
    }
}

} // verus!
