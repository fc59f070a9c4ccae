//! The renderer: from a statement to SQL text and an ordered list of bind
//! parameters.
//!
//! The slots are rendered in a fixed order: select, from, distinct, where,
//! group by, order, limit, offset. An empty slot contributes no text and no
//! parameter. Values never appear in the text: each is replaced by the
//! backend's placeholder and appended to the parameter list.

use vstd::prelude::*;
use vstd::string::*;

use crate::backend::{Backend, Construct};
use crate::clause::{
    DistinctClause, GroupByClause, LimitClause, OffsetClause, OrderClause, SelectClause,
    SelectView, WhereClause,
};
use crate::error::RenderError;
use crate::expression::{BinaryOp, Expr, ExprView};
use crate::source::{AliasedView, FromClause, FromView};
use crate::statement::{SelectStatement, StatementView};
use crate::types::{values_view, Value, ValueView};

verus! {

impl BinaryOp {
    /// How tightly the operator binds: `OR` least, then `AND`, then the
    /// comparisons and pattern operators.
    pub open spec fn precedence(self) -> nat {
        match self {
            BinaryOp::Or => 1,
            BinaryOp::And => 2,
            _ => 3,
        }
    }

    /// How tightly the operator binds.
    pub fn binding(self) -> (p: u8)
        ensures
            p == self.precedence(),
    {
        match self {
            BinaryOp::Or => 1,
            BinaryOp::And => 2,
            _ => 3,
        }
    }

    /// Whether the operator combines two boolean operands.
    pub fn combines(self) -> (logical: bool)
        ensures
            logical == self.is_logical(),
    {
        match self {
            BinaryOp::And | BinaryOp::Or => true,
            _ => false,
        }
    }
}

/// `text`, between parentheses if `wrap` holds.
pub open spec fn parenthesized(wrap: bool, text: Seq<char>) -> Seq<char> {
    if wrap {
        "("@ + text + ")"@
    } else {
        text
    }
}

impl ExprView {
    /// The values the expression binds, in the order in which they occur.
    pub open spec fn binds(self) -> Seq<ValueView>
        decreases self,
    {
        match self {
            ExprView::Column { .. } => Seq::empty(),
            ExprView::Bound(value) => seq![value],
            ExprView::Binary { left, right, .. } => left.binds() + right.binds(),
            ExprView::Call { argument, .. } => argument.binds(),
        }
    }

    /// Whether the expression, as an operand of `parent`, has to stand
    /// between parentheses: it is itself a binary expression whose operator
    /// binds less tightly than `parent`, or as tightly where `parent` is
    /// not a logical operator.
    pub open spec fn needs_parentheses(self, parent: BinaryOp) -> bool {
        match self {
            ExprView::Binary { op, .. } => op.precedence() < parent.precedence() || (
            op.precedence() == parent.precedence() && !parent.is_logical()),
            _ => false,
        }
    }

    /// The SQL text of the expression for `backend`, where `bound` values
    /// have been bound before it. A column is written with its source's
    /// name if `qualified` holds.
    pub open spec fn sql(self, backend: Backend, qualified: bool, bound: nat) -> Seq<char>
        decreases self,
    {
        match self {
            ExprView::Column { source, name, .. } => if qualified {
                source + "."@ + name
            } else {
                name
            },
            ExprView::Bound(_) => backend.placeholder(bound + 1),
            ExprView::Binary { op, left, right } => parenthesized(
                left.needs_parentheses(op),
                left.sql(backend, qualified, bound),
            ) + " "@ + op.keyword() + " "@ + parenthesized(
                right.needs_parentheses(op),
                right.sql(backend, qualified, bound + left.binds().len()),
            ),
            ExprView::Call { function, argument } => function.keyword() + "("@ + argument.sql(
                backend,
                qualified,
                bound,
            ) + ")"@,
        }
    }

    /// The first construct of the expression, in the order of its text,
    /// that `backend` cannot express; `None` if it can express them all.
    pub open spec fn unsupported(self, backend: Backend) -> Option<Construct>
        decreases self,
    {
        match self {
            ExprView::Column { .. } => None,
            ExprView::Bound(_) => None,
            ExprView::Binary { op, left, right } => match left.unsupported(backend) {
                Some(construct) => Some(construct),
                None => if !backend.supports(Construct::Operator(op)) {
                    Some(Construct::Operator(op))
                } else {
                    right.unsupported(backend)
                },
            },
            ExprView::Call { function, argument } => if !backend.supports(
                Construct::Function(function),
            ) {
                Some(Construct::Function(function))
            } else {
                argument.unsupported(backend)
            },
        }
    }
}

/// The text of the select slot of a statement whose base source is called
/// `base`: `SELECT`, then the expression, or a star for every column of the
/// base source.
pub open spec fn select_sql(
    select: SelectView,
    base: Seq<char>,
    backend: Backend,
    qualified: bool,
    bound: nat,
) -> Seq<char> {
    "SELECT "@ + match select {
        SelectView::AllColumns => if qualified {
            base + ".*"@
        } else {
            "*"@
        },
        SelectView::Expression(e) => e.sql(backend, qualified, bound),
    }
}

/// The expression in the select slot, if it holds one.
pub open spec fn select_expression(select: SelectView) -> Option<ExprView> {
    match select {
        SelectView::AllColumns => None,
        SelectView::Expression(e) => Some(e),
    }
}

/// The values the select slot binds.
pub open spec fn select_binds(select: SelectView) -> Seq<ValueView> {
    match select {
        SelectView::AllColumns => Seq::empty(),
        SelectView::Expression(e) => e.binds(),
    }
}

/// The text of the merged sources: for each, in order, a comma, the
/// source's name, `AS` and the alias.
pub open spec fn merged_sql(merged: Seq<AliasedView>) -> Seq<char>
    decreases merged.len(),
{
    if merged.len() == 0 {
        Seq::empty()
    } else {
        merged_sql(merged.drop_last()) + ", "@ + merged.last().source.name + " AS "@
            + merged.last().alias
    }
}

/// The text of the from slot.
pub open spec fn from_sql(from: FromView) -> Seq<char> {
    " FROM "@ + from.base.name + merged_sql(from.merged)
}

/// The text of the distinct slot.
pub open spec fn distinct_sql(distinct: bool) -> Seq<char> {
    if distinct {
        " DISTINCT"@
    } else {
        Seq::empty()
    }
}

/// The text of a slot that holds an optional expression: nothing if the
/// slot is empty, else `keyword` and the expression.
pub open spec fn optional_sql(
    keyword: Seq<char>,
    slot: Option<ExprView>,
    backend: Backend,
    qualified: bool,
    bound: nat,
) -> Seq<char> {
    match slot {
        None => Seq::empty(),
        Some(e) => keyword + e.sql(backend, qualified, bound),
    }
}

/// The values bound by a slot that holds an optional expression.
pub open spec fn optional_binds(slot: Option<ExprView>) -> Seq<ValueView> {
    match slot {
        None => Seq::empty(),
        Some(e) => e.binds(),
    }
}

/// The first construct in a slot that holds an optional expression that
/// `backend` cannot express.
pub open spec fn optional_unsupported(slot: Option<ExprView>, backend: Backend) -> Option<
    Construct,
> {
    match slot {
        None => None,
        Some(e) => e.unsupported(backend),
    }
}

/// The text of a slot that holds an optional row count: nothing if the slot
/// is empty, else `keyword` and a placeholder.
pub open spec fn count_sql(
    keyword: Seq<char>,
    slot: Option<i64>,
    backend: Backend,
    bound: nat,
) -> Seq<char> {
    match slot {
        None => Seq::empty(),
        Some(_) => keyword + backend.placeholder(bound + 1),
    }
}

/// The value bound by a slot that holds an optional row count: the count as
/// a big integer.
pub open spec fn count_binds(slot: Option<i64>) -> Seq<ValueView> {
    match slot {
        None => Seq::empty(),
        Some(n) => seq![ValueView::BigInt(n)],
    }
}

impl StatementView {
    /// The bind parameters of the statement, slot by slot in rendering
    /// order.
    pub open spec fn binds(self) -> Seq<ValueView> {
        select_binds(self.select) + optional_binds(self.where_clause) + optional_binds(
            self.group_by,
        ) + optional_binds(self.order) + count_binds(self.limit) + count_binds(self.offset)
    }

    /// The SQL text of the statement for `backend`, slot by slot in
    /// rendering order.
    pub open spec fn sql(self, backend: Backend) -> Seq<char> {
        let qualified = self.from.is_joined();
        let before_where = select_binds(self.select).len();
        let before_group_by = before_where + optional_binds(self.where_clause).len();
        let before_order = before_group_by + optional_binds(self.group_by).len();
        let before_limit = before_order + optional_binds(self.order).len();
        let before_offset = before_limit + count_binds(self.limit).len();
        select_sql(self.select, self.from.base.name, backend, qualified, 0)
            + from_sql(self.from)
            + distinct_sql(self.distinct)
            + optional_sql(" WHERE "@, self.where_clause, backend, qualified, before_where)
            + optional_sql(" GROUP BY "@, self.group_by, backend, qualified, before_group_by)
            + optional_sql(" ORDER BY "@, self.order, backend, qualified, before_order)
            + count_sql(" LIMIT "@, self.limit, backend, before_limit)
            + count_sql(" OFFSET "@, self.offset, backend, before_offset)
    }

    /// The first construct of the statement, in rendering order, that
    /// `backend` cannot express; `None` if it can express them all.
    pub open spec fn unsupported(self, backend: Backend) -> Option<Construct> {
        if optional_unsupported(select_expression(self.select), backend) is Some {
            optional_unsupported(select_expression(self.select), backend)
        } else if optional_unsupported(self.where_clause, backend) is Some {
            optional_unsupported(self.where_clause, backend)
        } else if optional_unsupported(self.group_by, backend) is Some {
            optional_unsupported(self.group_by, backend)
        } else if optional_unsupported(self.order, backend) is Some {
            optional_unsupported(self.order, backend)
        } else if self.offset is Some && self.limit is None && !backend.supports(
            Construct::OffsetWithoutLimit,
        ) {
            Some(Construct::OffsetWithoutLimit)
        } else {
            None
        }
    }
}

/// A rendered statement: the SQL text and the values of its bind
/// parameters, in the order of their placeholders.
#[derive(Debug, PartialEq, Eq)]
pub struct Query {
    pub sql: String,
    pub binds: Vec<Value>,
}

/// The text and the bind parameters rendered so far, for one backend.
pub struct QueryBuilder {
    pub backend: Backend,
    pub qualified: bool,
    pub sql: String,
    pub binds: Vec<Value>,
}

/// The mathematical model of a [`QueryBuilder`].
pub struct BuilderView {
    pub backend: Backend,
    pub qualified: bool,
    pub sql: Seq<char>,
    pub binds: Seq<ValueView>,
}

impl BuilderView {
    /// The builder after `text` and `binds` have been appended.
    pub open spec fn emit(self, text: Seq<char>, binds: Seq<ValueView>) -> BuilderView {
        BuilderView { sql: self.sql + text, binds: self.binds + binds, ..self }
    }
}

impl View for QueryBuilder {
    type V = BuilderView;

    open spec fn view(&self) -> BuilderView {
        BuilderView {
            backend: self.backend,
            qualified: self.qualified,
            sql: self.sql@,
            binds: values_view(self.binds@),
        }
    }
}

impl QueryBuilder {
    /// An empty builder for `backend`; columns will be written with their
    /// source's name if `qualified` holds.
    pub fn new(backend: Backend, qualified: bool) -> (builder: QueryBuilder)
        ensures
            builder@ == (BuilderView {
                backend,
                qualified,
                sql: Seq::empty(),
                binds: Seq::empty(),
            }),
    {
        let builder = QueryBuilder { backend, qualified, sql: String::new(), binds: Vec::new() };
        assert(builder@.binds =~= Seq::empty());
        builder
    }

    /// Appends `text` as it is.
    pub fn push_sql(&mut self, text: &str)
        ensures
            final(self)@ == old(self)@.emit(text@, Seq::empty()),
    {
        self.sql.append(text);
        assert(self@.binds =~= old(self)@.binds + Seq::<ValueView>::empty());
    }

    /// Appends `value` to the bind parameters and its placeholder to the
    /// text.
    pub fn push_bind(&mut self, value: Value)
        ensures
            final(self)@ == old(self)@.emit(
                old(self).backend.placeholder(old(self)@.binds.len() + 1),
                seq![value@],
            ),
    {
        self.binds.push(value);
        let position = self.binds.len();
        self.backend.push_placeholder(&mut self.sql, position);
        assert(self@.binds =~= old(self)@.binds + seq![value@]);
    }

    /// The text and the bind parameters rendered so far.
    pub fn finish(self) -> (query: Query)
        ensures
            query.sql@ == self@.sql,
            values_view(query.binds@) == self@.binds,
    {
        Query { sql: self.sql, binds: self.binds }
    }

    /// Appends `e`, between parentheses if `wrap` holds.
    fn push_operand(&mut self, e: &Expr, wrap: bool)
        ensures
            final(self)@ == old(self)@.emit(
                parenthesized(
                    wrap,
                    e@.sql(old(self).backend, old(self).qualified, old(self)@.binds.len()),
                ),
                e@.binds(),
            ),
        decreases e, 1nat,
    {
        if wrap {
            self.push_sql("(");
        }
        self.push_expr(e);
        if wrap {
            self.push_sql(")");
        }
        assert(self@.sql =~= old(self)@.sql + parenthesized(
            wrap,
            e@.sql(old(self).backend, old(self).qualified, old(self)@.binds.len()),
        ));
        assert(self@.binds =~= old(self)@.binds + e@.binds());
    }

    /// Appends the text of `e` and the values it binds.
    pub fn push_expr(&mut self, e: &Expr)
        ensures
            final(self)@ == old(self)@.emit(
                e@.sql(old(self).backend, old(self).qualified, old(self)@.binds.len()),
                e@.binds(),
            ),
        decreases e, 0nat,
    {
        match e {
            Expr::Column { source, name, .. } => {
                if self.qualified {
                    self.push_sql(source.as_str());
                    self.push_sql(".");
                }
                self.push_sql(name.as_str());
            },
            Expr::Bound(value) => {
                self.push_bind(value.clone());
            },
            Expr::Binary { op, left, right } => {
                let wrap_left = needs_parentheses(left, *op);
                let wrap_right = needs_parentheses(right, *op);
                self.push_operand(left, wrap_left);
                self.push_sql(" ");
                self.push_sql(op.sql());
                self.push_sql(" ");
                self.push_operand(right, wrap_right);
            },
            Expr::Call { function, argument } => {
                self.push_sql(function.sql());
                self.push_sql("(");
                self.push_expr(argument);
                self.push_sql(")");
            },
        }
        assert(self@.sql =~= old(self)@.sql + e@.sql(
            old(self).backend,
            old(self).qualified,
            old(self)@.binds.len(),
        ));
        assert(self@.binds =~= old(self)@.binds + e@.binds());
    }
}

/// Whether `e`, as an operand of `parent`, has to stand between
/// parentheses.
pub fn needs_parentheses(e: &Expr, parent: BinaryOp) -> (wrap: bool)
    ensures
        wrap == e@.needs_parentheses(parent),
{
    match e {
        Expr::Binary { op, .. } => op.binding() < parent.binding() || (op.binding()
            == parent.binding() && !parent.combines()),
        _ => false,
    }
}

impl Expr {
    /// The first construct of the expression, in the order of its text,
    /// that `backend` cannot express.
    pub fn first_unsupported(&self, backend: Backend) -> (found: Option<Construct>)
        ensures
            found == self@.unsupported(backend),
        decreases self,
    {
        match self {
            Expr::Column { .. } => None,
            Expr::Bound(_) => None,
            Expr::Binary { op, left, right } => {
                match left.first_unsupported(backend) {
                    Some(construct) => Some(construct),
                    None => {
                        if !backend.can_render(Construct::Operator(*op)) {
                            Some(Construct::Operator(*op))
                        } else {
                            right.first_unsupported(backend)
                        }
                    },
                }
            },
            Expr::Call { function, argument } => {
                if !backend.can_render(Construct::Function(*function)) {
                    Some(Construct::Function(*function))
                } else {
                    argument.first_unsupported(backend)
                }
            },
        }
    }
}

impl QueryBuilder {
    /// Appends the select slot of a statement over `from`.
    pub fn push_select(&mut self, select: &SelectClause, from: &FromClause)
        ensures
            final(self)@ == old(self)@.emit(
                select_sql(
                    select@,
                    from@.base.name,
                    old(self).backend,
                    old(self).qualified,
                    old(self)@.binds.len(),
                ),
                select_binds(select@),
            ),
    {
        self.push_sql("SELECT ");
        match select {
            SelectClause::AllColumns => {
                if self.qualified {
                    self.push_sql(from.base.name.as_str());
                    self.push_sql(".*");
                } else {
                    self.push_sql("*");
                }
            },
            SelectClause::Expression(e) => {
                self.push_expr(e);
            },
        }
        assert(self@.sql =~= old(self)@.sql + select_sql(
            select@,
            from@.base.name,
            old(self).backend,
            old(self).qualified,
            old(self)@.binds.len(),
        ));
        assert(self@.binds =~= old(self)@.binds + select_binds(select@));
    }

    /// Appends the from slot.
    pub fn push_from(&mut self, from: &FromClause)
        ensures
            final(self)@ == old(self)@.emit(from_sql(from@), Seq::empty()),
    {
        self.push_sql(" FROM ");
        self.push_sql(from.base.name.as_str());
        let mut i: usize = 0;
        proof {
            assert(from@.merged.subrange(0, 0).len() == 0);
            assert(self@.sql =~= old(self)@.sql + (" FROM "@ + from@.base.name + merged_sql(
                from@.merged.subrange(0, 0),
            )));
            assert(self@.binds =~= old(self)@.binds + Seq::<ValueView>::empty());
        }
        while i < from.merged.len()
            invariant
                i <= from.merged.len(),
                self@ == old(self)@.emit(
                    " FROM "@ + from@.base.name + merged_sql(from@.merged.subrange(0, i as int)),
                    Seq::empty(),
                ),
            decreases from.merged.len() - i,
        {
            let ghost before = from@.merged.subrange(0, i as int);
            let ghost after = from@.merged.subrange(0, i as int + 1);
            assert(after.drop_last() =~= before);
            assert(after.last() == from.merged[i as int]@);
            self.push_sql(", ");
            self.push_sql(from.merged[i].source.name.as_str());
            self.push_sql(" AS ");
            self.push_sql(from.merged[i].alias.as_str());
            assert(self@.sql =~= old(self)@.sql + (" FROM "@ + from@.base.name + merged_sql(
                after,
            )));
            assert(self@.binds =~= old(self)@.binds + Seq::<ValueView>::empty());
            i = i + 1;
        }
        assert(from@.merged.subrange(0, i as int) =~= from@.merged);
    }

    /// Appends the distinct slot.
    pub fn push_distinct(&mut self, distinct: DistinctClause)
        ensures
            final(self)@ == old(self)@.emit(distinct_sql(distinct@), Seq::empty()),
    {
        match distinct {
            DistinctClause::NoDistinct => {},
            DistinctClause::Distinct => {
                self.push_sql(" DISTINCT");
            },
        }
        assert(self@.sql =~= old(self)@.sql + distinct_sql(distinct@));
        assert(self@.binds =~= old(self)@.binds + Seq::<ValueView>::empty());
    }

    /// Appends `keyword` and `e`.
    fn push_keyword_expr(&mut self, keyword: &str, e: &Expr)
        ensures
            final(self)@ == old(self)@.emit(
                optional_sql(
                    keyword@,
                    Some(e@),
                    old(self).backend,
                    old(self).qualified,
                    old(self)@.binds.len(),
                ),
                optional_binds(Some(e@)),
            ),
    {
        self.push_sql(keyword);
        self.push_expr(e);
        assert(self@.sql =~= old(self)@.sql + (keyword@ + e@.sql(
            old(self).backend,
            old(self).qualified,
            old(self)@.binds.len(),
        )));
        assert(self@.binds =~= old(self)@.binds + e@.binds());
    }

    /// Appends a where slot that holds `predicate`.
    pub fn push_predicate(&mut self, predicate: &Expr)
        ensures
            final(self)@ == old(self)@.emit(
                optional_sql(
                    " WHERE "@,
                    Some(predicate@),
                    old(self).backend,
                    old(self).qualified,
                    old(self)@.binds.len(),
                ),
                optional_binds(Some(predicate@)),
            ),
    {
        self.push_keyword_expr(" WHERE ", predicate);
    }

    /// Leaves the builder as it is: what an empty slot contributes.
    fn push_nothing(&mut self)
        ensures
            final(self)@ == old(self)@.emit(Seq::empty(), Seq::empty()),
    {
        assert(self@.sql =~= old(self)@.sql + Seq::<char>::empty());
        assert(self@.binds =~= old(self)@.binds + Seq::<ValueView>::empty());
    }

    /// Appends the where slot.
    pub fn push_where(&mut self, clause: &WhereClause)
        ensures
            final(self)@ == old(self)@.emit(
                optional_sql(
                    " WHERE "@,
                    clause@,
                    old(self).backend,
                    old(self).qualified,
                    old(self)@.binds.len(),
                ),
                optional_binds(clause@),
            ),
    {
        match clause {
            WhereClause::NoWhere => self.push_nothing(),
            WhereClause::Where(e) => self.push_predicate(e),
        }
    }

    /// Appends the group-by slot.
    pub fn push_group_by(&mut self, clause: &GroupByClause)
        ensures
            final(self)@ == old(self)@.emit(
                optional_sql(
                    " GROUP BY "@,
                    clause@,
                    old(self).backend,
                    old(self).qualified,
                    old(self)@.binds.len(),
                ),
                optional_binds(clause@),
            ),
    {
        match clause {
            GroupByClause::NoGroupBy => self.push_nothing(),
            GroupByClause::GroupBy(e) => self.push_keyword_expr(" GROUP BY ", e),
        }
    }

    /// Appends the order slot.
    pub fn push_order(&mut self, clause: &OrderClause)
        ensures
            final(self)@ == old(self)@.emit(
                optional_sql(
                    " ORDER BY "@,
                    clause@,
                    old(self).backend,
                    old(self).qualified,
                    old(self)@.binds.len(),
                ),
                optional_binds(clause@),
            ),
    {
        match clause {
            OrderClause::NoOrder => self.push_nothing(),
            OrderClause::Order(e) => self.push_keyword_expr(" ORDER BY ", e),
        }
    }

    /// Appends `keyword` and the row count `n` as a bound big integer.
    fn push_keyword_count(&mut self, keyword: &str, n: i64)
        ensures
            final(self)@ == old(self)@.emit(
                count_sql(keyword@, Some(n), old(self).backend, old(self)@.binds.len()),
                count_binds(Some(n)),
            ),
    {
        self.push_sql(keyword);
        self.push_bind(Value::BigInt(n));
        assert(self@.sql =~= old(self)@.sql + (keyword@ + old(self).backend.placeholder(
            old(self)@.binds.len() + 1,
        )));
        assert(self@.binds =~= old(self)@.binds + seq![ValueView::BigInt(n)]);
    }

    /// Appends the limit slot.
    pub fn push_limit(&mut self, clause: LimitClause)
        ensures
            final(self)@ == old(self)@.emit(
                count_sql(" LIMIT "@, clause@, old(self).backend, old(self)@.binds.len()),
                count_binds(clause@),
            ),
    {
        match clause {
            LimitClause::NoLimit => self.push_nothing(),
            LimitClause::Limit(n) => self.push_keyword_count(" LIMIT ", n),
        }
    }

    /// Appends the offset slot.
    pub fn push_offset(&mut self, clause: OffsetClause)
        ensures
            final(self)@ == old(self)@.emit(
                count_sql(" OFFSET "@, clause@, old(self).backend, old(self)@.binds.len()),
                count_binds(clause@),
            ),
    {
        match clause {
            OffsetClause::NoOffset => self.push_nothing(),
            OffsetClause::Offset(n) => self.push_keyword_count(" OFFSET ", n),
        }
    }
}

impl SelectStatement {
    /// The first construct of the statement, in rendering order, that
    /// `backend` cannot express.
    pub fn first_unsupported(&self, backend: Backend) -> (found: Option<Construct>)
        ensures
            found == self@.unsupported(backend),
    {
        if let SelectClause::Expression(e) = self.select_clause() {
            let found = e.first_unsupported(backend);
            if found.is_some() {
                return found;
            }
        }
        if let WhereClause::Where(e) = self.where_clause() {
            let found = e.first_unsupported(backend);
            if found.is_some() {
                return found;
            }
        }
        if let GroupByClause::GroupBy(e) = self.group_by_clause() {
            let found = e.first_unsupported(backend);
            if found.is_some() {
                return found;
            }
        }
        if let OrderClause::Order(e) = self.order_clause() {
            let found = e.first_unsupported(backend);
            if found.is_some() {
                return found;
            }
        }
        match (self.limit_clause(), self.offset_clause()) {
            (LimitClause::NoLimit, OffsetClause::Offset(_)) => {
                if !backend.can_render(Construct::OffsetWithoutLimit) {
                    return Some(Construct::OffsetWithoutLimit);
                }
            },
            _ => {},
        }
        None
    }

    /// Renders the statement for `backend`: its SQL text and its bind
    /// parameters, or the first construct that the backend cannot express.
    pub fn render(&self, backend: Backend) -> (result: Result<Query, RenderError>)
        ensures
            match result {
                Ok(query) => self@.valid() && self@.unsupported(backend) is None && query.sql@
                    == self@.sql(backend) && values_view(query.binds@) == self@.binds(),
                Err(error) => self@.unsupported(backend) == Some(error.construct) && error.backend
                    == backend,
            },
    {
        proof {
            use_type_invariant(self);
        }
        match self.first_unsupported(backend) {
            Some(construct) => Err(RenderError { backend, construct }),
            None => Ok(self.emit(backend)),
        }
    }

    /// The text and the bind parameters of the statement for `backend`,
    /// whether or not the backend can express every construct in it.
    fn emit(&self, backend: Backend) -> (query: Query)
        ensures
            query.sql@ == self@.sql(backend),
            values_view(query.binds@) == self@.binds(),
    {
        let from = self.from_clause();
        let mut out = QueryBuilder::new(backend, from.is_joined());
        out.push_select(self.select_clause(), from);
        out.push_from(from);
        out.push_distinct(self.distinct_clause());
        out.push_where(self.where_clause());
        out.push_group_by(self.group_by_clause());
        out.push_order(self.order_clause());
        out.push_limit(self.limit_clause());
        out.push_offset(self.offset_clause());
        assert(out@.sql =~= self@.sql(backend));
        assert(out@.binds =~= self@.binds());
        out.finish()
    }
}

} // verus!
