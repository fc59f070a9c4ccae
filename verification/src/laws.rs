//! Laws of the statement algebra, proved over the models.
//!
//! Each law relates transformations to one another or to the renderer. The
//! executable functions return exactly the models the laws speak of, so the
//! laws hold of every statement built and rendered through the library.

use vstd::prelude::*;

use crate::backend::Backend;
use crate::capability::Capability;
use crate::clause::conjunction;
use crate::expression::{BinaryOp, ExprView};
use crate::render::{
    from_sql, optional_binds, optional_sql, optional_unsupported, parenthesized, select_binds,
    select_expression, select_sql,
};
use crate::source::{AliasedView, FromView};
use crate::statement::{
    filter_rejection, grouping_rejection, lemma_with_valid, selection_rejection, StatementView,
};

verus! {

/// Every transformation that accepts its argument leads from a valid
/// statement to a valid statement: the receiver and the result can both be
/// rendered.
pub proof fn law_transformations_preserve_validity(
    statement: StatementView,
    e: ExprView,
    n: i64,
    sub: AliasedView,
)
    requires
        statement.valid(),
    ensures
        selection_rejection(statement.from, e) is None ==> statement.select(e).valid(),
        statement.distinct().valid(),
        filter_rejection(statement.from, e) is None ==> statement.filter(e).valid(),
        selection_rejection(statement.from, e) is None ==> statement.order(e).valid(),
        statement.limit(n).valid(),
        statement.offset(n).valid(),
        statement.from.merge(sub).valid() ==> statement.with(sub).valid(),
        grouping_rejection(e) is None ==> statement.group_by(e).valid(),
{
    if statement.from.merge(sub).valid() {
        lemma_with_valid(statement, sub);
    }
}

/// Every transformation changes the one slot it is named after and leaves
/// all others as they are.
pub proof fn law_transformations_touch_one_slot(
    statement: StatementView,
    e: ExprView,
    n: i64,
    sub: AliasedView,
)
    ensures
        statement.select(e) == (StatementView { select: statement.select(e).select, ..statement }),
        statement.distinct() == (StatementView { distinct: true, ..statement }),
        statement.filter(e) == (StatementView {
            where_clause: statement.filter(e).where_clause,
            ..statement
        }),
        statement.order(e) == (StatementView { order: Some(e), ..statement }),
        statement.limit(n) == (StatementView { limit: Some(n), ..statement }),
        statement.offset(n) == (StatementView { offset: Some(n), ..statement }),
        statement.with(sub) == (StatementView { from: statement.with(sub).from, ..statement }),
        statement.group_by(e) == (StatementView { group_by: Some(e), ..statement }),
{
}

/// A slot that holds nothing contributes no text and no bind parameter: a
/// statement with only its select and from slots set renders as the text of
/// these two, and binds what the select slot binds.
pub proof fn law_empty_slots_contribute_nothing(statement: StatementView, backend: Backend)
    requires
        !statement.distinct,
        statement.where_clause is None,
        statement.group_by is None,
        statement.order is None,
        statement.limit is None,
        statement.offset is None,
    ensures
        statement.sql(backend) == select_sql(
            statement.select,
            statement.from.base.name,
            backend,
            statement.from.is_joined(),
            0,
        ) + from_sql(statement.from),
        statement.binds() == select_binds(statement.select),
        statement.unsupported(backend) == optional_unsupported(
            select_expression(statement.select),
            backend,
        ),
{
    assert(statement.sql(backend) =~= select_sql(
        statement.select,
        statement.from.base.name,
        backend,
        statement.from.is_joined(),
        0,
    ) + from_sql(statement.from));
    assert(statement.binds() =~= select_binds(statement.select));
}

/// Two filters in a row put the conjunction of the two predicates into an
/// empty where slot, the first as the left operand and the second as the
/// right. The slot then reads `WHERE`, the first predicate, `AND`, the
/// second predicate, and binds the values of the first before those of the
/// second. A predicate stands between parentheses exactly if it is a
/// disjunction, which binds less tightly than `AND`.
pub proof fn law_filter_conjoins_in_call_order(
    statement: StatementView,
    first: ExprView,
    second: ExprView,
    backend: Backend,
    qualified: bool,
    bound: nat,
)
    requires
        statement.where_clause is None,
    ensures
        statement.filter(first).filter(second).where_clause == Some(conjunction(first, second)),
        optional_sql(
            " WHERE "@,
            statement.filter(first).filter(second).where_clause,
            backend,
            qualified,
            bound,
        ) == " WHERE "@ + parenthesized(
            first.needs_parentheses(BinaryOp::And),
            first.sql(backend, qualified, bound),
        ) + " AND "@ + parenthesized(
            second.needs_parentheses(BinaryOp::And),
            second.sql(backend, qualified, bound + first.binds().len()),
        ),
        optional_binds(statement.filter(first).filter(second).where_clause) == first.binds()
            + second.binds(),
{
    reveal_strlit(" AND ");
    reveal_strlit(" ");
    reveal_strlit("AND");
    let left = parenthesized(
        first.needs_parentheses(BinaryOp::And),
        first.sql(backend, qualified, bound),
    );
    let right = parenthesized(
        second.needs_parentheses(BinaryOp::And),
        second.sql(backend, qualified, bound + first.binds().len()),
    );
    assert(" "@ + "AND"@ + " "@ =~= " AND "@);
    assert(" WHERE "@ + (left + " "@ + "AND"@ + " "@ + right) =~= " WHERE "@ + left + " AND "@
        + right);
}

/// A filter on a statement whose where slot holds a predicate keeps that
/// predicate as the left operand of a conjunction and adds the new one as
/// the right operand.
pub proof fn law_filter_extends_on_the_right(
    statement: StatementView,
    held: ExprView,
    predicate: ExprView,
)
    requires
        statement.where_clause == Some(held),
    ensures
        statement.filter(predicate).where_clause == Some(conjunction(held, predicate)),
{
}

/// Ordering replaces: after two calls the statement is the one that the
/// second call alone gives, so it renders with the second expression only.
pub proof fn law_order_replaces(
    statement: StatementView,
    first: ExprView,
    second: ExprView,
    backend: Backend,
)
    ensures
        statement.order(first).order(second) == statement.order(second),
        statement.order(first).order(second).sql(backend) == statement.order(second).sql(backend),
        statement.order(first).order(second).binds() == statement.order(second).binds(),
{
}

/// Limit and offset do not depend on the order in which they are set: the
/// two statements are the same, and so are their text and their bind
/// parameters.
pub proof fn law_limit_offset_commute(
    statement: StatementView,
    limit: i64,
    offset: i64,
    backend: Backend,
)
    ensures
        statement.limit(limit).offset(offset) == statement.offset(offset).limit(limit),
        statement.limit(limit).offset(offset).sql(backend) == statement.offset(offset).limit(
            limit,
        ).sql(backend),
        statement.limit(limit).offset(offset).binds() == statement.offset(offset).limit(
            limit,
        ).binds(),
        statement.limit(limit).offset(offset).unsupported(backend) == statement.offset(
            offset,
        ).limit(limit).unsupported(backend),
{
}

/// Setting the distinct marker twice is setting it once.
pub proof fn law_distinct_idempotent(statement: StatementView, backend: Backend)
    ensures
        statement.distinct().distinct() == statement.distinct(),
        statement.distinct().distinct().sql(backend) == statement.distinct().sql(backend),
        statement.distinct().distinct().binds() == statement.distinct().binds(),
{
}

/// A boxed statement renders as the statement it was made from: the same
/// text and the same bind parameters, for the backend it was boxed for.
pub proof fn law_boxing_preserves_rendering(statement: StatementView, backend: Backend)
    ensures
        statement.boxed(backend).sql() == statement.sql(backend),
        statement.boxed(backend).binds() == statement.binds(),
        statement.boxed(backend).origin() == statement,
{
    let boxed = statement.boxed(backend);
    assert(boxed.binds() =~= statement.binds());
    assert(boxed.sql() =~= statement.sql(backend));
}

/// A predicate that is not boolean-typed is never accepted by the where
/// slot; one that has another type is turned away as not boolean-typed.
pub proof fn law_filter_rejects_non_boolean(from: FromView, predicate: ExprView)
    requires
        !predicate.boolean_typed(),
    ensures
        filter_rejection(from, predicate) is Some,
        predicate.typed() ==> filter_rejection(from, predicate) == Some(Capability::BooleanTyped),
{
}

} // verus!
