use select_statement::backend::Backend;
use select_statement::capability::Capability;
use select_statement::clause::{
    DistinctClause, GroupByClause, LimitClause, OffsetClause, OrderClause, SelectClause, Slot,
    WhereClause,
};
use select_statement::error::ValidityError;
use select_statement::expression::{BinaryOp, Expr, Function};
use select_statement::source::{Aliased, Column, Source};
use select_statement::statement::SelectStatement;
use select_statement::types::{SqlType, Value};

fn users() -> Source {
    Source::new(
        "users",
        vec![
            Column::new("id", SqlType::Integer),
            Column::new("name", SqlType::Text),
            Column::new("active", SqlType::Bool),
        ],
    )
}

fn posts() -> Source {
    Source::new(
        "posts",
        vec![
            Column::new("id", SqlType::Integer),
            Column::new("user_id", SqlType::Integer),
            Column::new("title", SqlType::Text),
        ],
    )
}

fn col(name: &str, sql_type: SqlType) -> Expr {
    Expr::column("users", name, sql_type)
}

fn is_active() -> Expr {
    Expr::binary(
        BinaryOp::Eq,
        col("active", SqlType::Bool),
        Expr::bound(Value::Bool(true)),
    )
}

fn base() -> SelectStatement {
    SelectStatement::new(users()).unwrap()
}

#[test]
fn users_scenario_renders_for_postgres() {
    let name = col("name", SqlType::Text);
    let statement = base()
        .select(name.clone())
        .unwrap()
        .filter(is_active())
        .unwrap()
        .order(name)
        .unwrap()
        .limit(10)
        .offset(5);
    let query = statement.render(Backend::Postgres).unwrap();
    assert_eq!(
        query.sql,
        "SELECT name FROM users WHERE active = $1 ORDER BY name LIMIT $2 OFFSET $3"
    );
    assert_eq!(
        query.binds,
        vec![Value::Bool(true), Value::BigInt(10), Value::BigInt(5)]
    );
}

#[test]
fn users_scenario_renders_for_sqlite_with_question_marks() {
    let name = col("name", SqlType::Text);
    let statement = base()
        .select(name.clone())
        .unwrap()
        .filter(is_active())
        .unwrap()
        .order(name)
        .unwrap()
        .limit(10)
        .offset(5);
    let query = statement.render(Backend::Sqlite).unwrap();
    assert_eq!(
        query.sql,
        "SELECT name FROM users WHERE active = ? ORDER BY name LIMIT ? OFFSET ?"
    );
    assert_eq!(
        query.binds,
        vec![Value::Bool(true), Value::BigInt(10), Value::BigInt(5)]
    );
}

#[test]
fn base_statement_selects_every_column() {
    let statement = base();
    assert_eq!(statement.select_clause(), &SelectClause::AllColumns);
    assert_eq!(statement.from_clause().base, users());
    assert!(statement.from_clause().merged.is_empty());
    assert_eq!(statement.distinct_clause(), DistinctClause::NoDistinct);
    assert_eq!(statement.where_clause(), &WhereClause::NoWhere);
    assert_eq!(statement.group_by_clause(), &GroupByClause::NoGroupBy);
    assert_eq!(statement.order_clause(), &OrderClause::NoOrder);
    assert_eq!(statement.limit_clause(), LimitClause::NoLimit);
    assert_eq!(statement.offset_clause(), OffsetClause::NoOffset);
    let query = statement.render(Backend::Postgres).unwrap();
    assert_eq!(query.sql, "SELECT * FROM users");
    assert!(query.binds.is_empty());
}

#[test]
fn base_statement_needs_a_valid_source() {
    let twice = Source::new(
        "users",
        vec![
            Column::new("id", SqlType::Integer),
            Column::new("id", SqlType::Text),
        ],
    );
    assert_eq!(
        SelectStatement::new(twice),
        Err(ValidityError {
            predicate: Capability::ValidSource,
            clause: Slot::From
        })
    );
    let empty = Source::new("nothing", vec![]);
    assert!(SelectStatement::new(empty).is_ok());
}

#[test]
fn transforming_leaves_the_receiver_unchanged() {
    let a = base().filter(is_active()).unwrap();
    let before = a.render(Backend::Postgres).unwrap();
    let copy = a.clone();
    let b = a.order(col("name", SqlType::Text)).unwrap().limit(3).distinct();
    let after = a.render(Backend::Postgres).unwrap();
    assert_eq!(before, after);
    assert_eq!(a, copy);
    assert_eq!(after.sql, "SELECT * FROM users WHERE active = $1");
    let other = b.render(Backend::Postgres).unwrap();
    assert_eq!(
        other.sql,
        "SELECT * FROM users DISTINCT WHERE active = $1 ORDER BY name LIMIT $2"
    );
    assert_eq!(other.binds, vec![Value::Bool(true), Value::BigInt(3)]);
}

#[test]
fn two_chains_from_one_base_do_not_interfere() {
    let shared = base();
    let left = shared.limit(1);
    let right = shared.offset(2).limit(7);
    assert_eq!(
        left.render(Backend::Postgres).unwrap().sql,
        "SELECT * FROM users LIMIT $1"
    );
    assert_eq!(
        right.render(Backend::Postgres).unwrap().binds,
        vec![Value::BigInt(7), Value::BigInt(2)]
    );
    assert_eq!(
        shared.render(Backend::Postgres).unwrap().sql,
        "SELECT * FROM users"
    );
}

#[test]
fn filter_conjoins_in_call_order() {
    let p1 = is_active();
    let p2 = Expr::binary(
        BinaryOp::Gt,
        col("id", SqlType::Integer),
        Expr::bound(Value::Integer(7)),
    );
    let forth = base()
        .filter(p1.clone())
        .unwrap()
        .filter(p2.clone())
        .unwrap();
    let back = base().filter(p2.clone()).unwrap().filter(p1.clone()).unwrap();
    assert_eq!(
        forth.where_clause(),
        &WhereClause::Where(Expr::binary(BinaryOp::And, p1.clone(), p2.clone()))
    );
    let forth = forth.render(Backend::Postgres).unwrap();
    let back = back.render(Backend::Postgres).unwrap();
    assert_eq!(
        forth.sql,
        "SELECT * FROM users WHERE active = $1 AND id > $2"
    );
    assert_eq!(forth.binds, vec![Value::Bool(true), Value::Integer(7)]);
    assert_eq!(back.sql, "SELECT * FROM users WHERE id > $1 AND active = $2");
    assert_eq!(back.binds, vec![Value::Integer(7), Value::Bool(true)]);
}

#[test]
fn third_filter_extends_on_the_right() {
    let name_is = |s: &str| {
        Expr::binary(
            BinaryOp::Eq,
            col("name", SqlType::Text),
            Expr::bound(Value::text(s)),
        )
    };
    let statement = base()
        .filter(name_is("a"))
        .unwrap()
        .filter(name_is("b"))
        .unwrap()
        .filter(name_is("c"))
        .unwrap();
    let query = statement.render(Backend::Postgres).unwrap();
    assert_eq!(
        query.sql,
        "SELECT * FROM users WHERE name = $1 AND name = $2 AND name = $3"
    );
    assert_eq!(
        query.binds,
        vec![Value::text("a"), Value::text("b"), Value::text("c")]
    );
}

#[test]
fn filter_wraps_a_disjunction() {
    let either = Expr::binary(
        BinaryOp::Or,
        is_active(),
        Expr::binary(
            BinaryOp::Lt,
            col("id", SqlType::Integer),
            Expr::bound(Value::Integer(3)),
        ),
    );
    let statement = base().filter(either).unwrap().filter(is_active()).unwrap();
    let query = statement.render(Backend::Postgres).unwrap();
    assert_eq!(
        query.sql,
        "SELECT * FROM users WHERE (active = $1 OR id < $2) AND active = $3"
    );
}

#[test]
fn order_replaces() {
    let twice = base()
        .order(col("id", SqlType::Integer))
        .unwrap()
        .order(col("name", SqlType::Text))
        .unwrap();
    let once = base().order(col("name", SqlType::Text)).unwrap();
    assert_eq!(twice, once);
    let query = twice.render(Backend::Postgres).unwrap();
    assert_eq!(query.sql, "SELECT * FROM users ORDER BY name");
    assert!(!query.sql.contains("id"));
    assert_eq!(query, once.render(Backend::Postgres).unwrap());
}

#[test]
fn limit_and_offset_commute() {
    let a = base().limit(5).offset(10);
    let b = base().offset(10).limit(5);
    assert_eq!(a, b);
    for backend in [Backend::Postgres, Backend::Sqlite, Backend::Mysql] {
        assert_eq!(a.render(backend), b.render(backend));
    }
    let query = a.render(Backend::Postgres).unwrap();
    assert_eq!(query.sql, "SELECT * FROM users LIMIT $1 OFFSET $2");
    assert_eq!(query.binds, vec![Value::BigInt(5), Value::BigInt(10)]);
}

#[test]
fn limit_replaces_and_takes_any_count() {
    let statement = base().limit(5).limit(i64::MIN).offset(1).offset(i64::MAX);
    assert_eq!(statement.limit_clause(), LimitClause::Limit(i64::MIN));
    assert_eq!(statement.offset_clause(), OffsetClause::Offset(i64::MAX));
    assert_eq!(
        statement.render(Backend::Mysql).unwrap().binds,
        vec![Value::BigInt(i64::MIN), Value::BigInt(i64::MAX)]
    );
}

#[test]
fn distinct_is_idempotent() {
    let once = base().distinct();
    let twice = base().distinct().distinct();
    assert_eq!(once, twice);
    assert_eq!(once.distinct_clause(), DistinctClause::Distinct);
    let query = twice.render(Backend::Postgres).unwrap();
    assert_eq!(query, once.render(Backend::Postgres).unwrap());
    assert_eq!(query.sql, "SELECT * FROM users DISTINCT");
}

#[test]
fn filter_rejects_a_predicate_that_is_not_boolean() {
    let rejected = ValidityError {
        predicate: Capability::BooleanTyped,
        clause: Slot::Where,
    };
    assert_eq!(base().filter(col("name", SqlType::Text)), Err(rejected));
    assert_eq!(base().filter(Expr::bound(Value::Integer(1))), Err(rejected));
    assert_eq!(
        base().filter(Expr::call(Function::Lower, col("name", SqlType::Text))),
        Err(rejected)
    );
    assert!(base().filter(col("active", SqlType::Bool)).is_ok());
}

#[test]
fn filter_rejects_in_a_fixed_order() {
    let ill_typed = Expr::binary(
        BinaryOp::Eq,
        col("name", SqlType::Text),
        Expr::bound(Value::Integer(1)),
    );
    assert_eq!(
        base().filter(ill_typed),
        Err(ValidityError {
            predicate: Capability::Typed,
            clause: Slot::Where
        })
    );
    let aggregate = Expr::call(Function::BoolAnd, Expr::column("nowhere", "x", SqlType::Bool));
    assert_eq!(
        base().filter(aggregate),
        Err(ValidityError {
            predicate: Capability::NonAggregate,
            clause: Slot::Where
        })
    );
    let counted = Expr::binary(
        BinaryOp::Gt,
        Expr::call(Function::Count, col("id", SqlType::Integer)),
        Expr::bound(Value::BigInt(1)),
    );
    assert_eq!(
        base().filter(counted),
        Err(ValidityError {
            predicate: Capability::NonAggregate,
            clause: Slot::Where
        })
    );
    let invisible = Expr::column("posts", "published", SqlType::Bool);
    assert_eq!(
        base().filter(invisible),
        Err(ValidityError {
            predicate: Capability::SelectableFrom,
            clause: Slot::Where
        })
    );
    let wrong_type = Expr::column("users", "name", SqlType::Bool);
    assert_eq!(
        base().filter(wrong_type),
        Err(ValidityError {
            predicate: Capability::SelectableFrom,
            clause: Slot::Where
        })
    );
}

#[test]
fn select_and_order_ask_for_typed_and_selectable() {
    let ill_typed = Expr::call(Function::Lower, col("id", SqlType::Integer));
    let invisible = Expr::column("posts", "title", SqlType::Text);
    assert_eq!(
        base().select(ill_typed.clone()),
        Err(ValidityError {
            predicate: Capability::Typed,
            clause: Slot::Select
        })
    );
    assert_eq!(
        base().select(invisible.clone()),
        Err(ValidityError {
            predicate: Capability::SelectableFrom,
            clause: Slot::Select
        })
    );
    assert_eq!(
        base().order(ill_typed),
        Err(ValidityError {
            predicate: Capability::Typed,
            clause: Slot::Order
        })
    );
    assert_eq!(
        base().order(invisible),
        Err(ValidityError {
            predicate: Capability::SelectableFrom,
            clause: Slot::Order
        })
    );
    let counted = Expr::call(Function::Count, col("id", SqlType::Integer));
    let statement = base().select(counted.clone()).unwrap();
    assert_eq!(statement.select_clause(), &SelectClause::Expression(counted));
}

#[test]
fn group_by_asks_for_a_typed_expression_only() {
    let ill_typed = Expr::call(Function::Upper, Expr::bound(Value::Bool(false)));
    assert_eq!(
        base().group_by(ill_typed),
        Err(ValidityError {
            predicate: Capability::Typed,
            clause: Slot::GroupBy
        })
    );
    // Grouping is not held against the select slot, nor against the sources.
    let statement = base()
        .select(col("name", SqlType::Text))
        .unwrap()
        .group_by(col("id", SqlType::Integer))
        .unwrap()
        .group_by(Expr::column("posts", "title", SqlType::Text))
        .unwrap();
    assert_eq!(
        statement.group_by_clause(),
        &GroupByClause::GroupBy(Expr::column("posts", "title", SqlType::Text))
    );
    assert_eq!(
        statement.render(Backend::Postgres).unwrap().sql,
        "SELECT name FROM users GROUP BY title"
    );
}

#[test]
fn with_makes_the_columns_of_a_source_visible() {
    let title = Expr::column("p", "title", SqlType::Text);
    assert!(base().select(title.clone()).is_err());
    let joined = base().with(Aliased::new(posts(), "p")).unwrap();
    let statement = joined
        .select(title)
        .unwrap()
        .filter(Expr::binary(
            BinaryOp::Eq,
            Expr::column("p", "user_id", SqlType::Integer),
            col("id", SqlType::Integer),
        ))
        .unwrap();
    let query = statement.render(Backend::Postgres).unwrap();
    assert_eq!(
        query.sql,
        "SELECT p.title FROM users, posts AS p WHERE p.user_id = users.id"
    );
    assert!(query.binds.is_empty());
    assert_eq!(
        joined.render(Backend::Postgres).unwrap().sql,
        "SELECT users.* FROM users, posts AS p"
    );
}

#[test]
fn with_keeps_what_the_other_slots_hold() {
    let statement = base()
        .filter(is_active())
        .unwrap()
        .with(Aliased::new(posts(), "p"))
        .unwrap()
        .with(Aliased::new(posts(), "q"))
        .unwrap();
    assert_eq!(statement.where_clause(), &WhereClause::Where(is_active()));
    assert_eq!(statement.from_clause().merged.len(), 2);
    assert_eq!(
        statement.render(Backend::Mysql).unwrap().sql,
        "SELECT users.* FROM users, posts AS p, posts AS q WHERE users.active = ?"
    );
}

#[test]
fn with_rejects_a_name_in_use_and_an_invalid_source() {
    let rejected = Err(ValidityError {
        predicate: Capability::ValidSource,
        clause: Slot::With,
    });
    assert_eq!(base().with(Aliased::new(posts(), "users")), rejected);
    let joined = base().with(Aliased::new(posts(), "p")).unwrap();
    assert_eq!(joined.with(Aliased::new(users(), "p")), rejected);
    let twice = Source::new(
        "t",
        vec![
            Column::new("a", SqlType::Bool),
            Column::new("a", SqlType::Bool),
        ],
    );
    assert_eq!(base().with(Aliased::new(twice, "t")), rejected);
    assert!(joined.with(Aliased::new(users(), "posts")).is_ok());
}

#[test]
fn row_type_follows_the_select_slot() {
    assert_eq!(
        base().row_type(),
        vec![SqlType::Integer, SqlType::Text, SqlType::Bool]
    );
    let named = base().select(col("name", SqlType::Text)).unwrap();
    assert_eq!(named.row_type(), vec![SqlType::Text]);
    let counted = base()
        .select(Expr::call(Function::Count, col("name", SqlType::Text)))
        .unwrap();
    assert_eq!(counted.row_type(), vec![SqlType::BigInt]);
    let joined = base().with(Aliased::new(posts(), "p")).unwrap();
    assert_eq!(
        joined.row_type(),
        vec![SqlType::Integer, SqlType::Text, SqlType::Bool]
    );
}

#[test]
fn errors_have_messages() {
    let error = base().filter(col("name", SqlType::Text)).unwrap_err();
    assert_eq!(
        error.message(),
        "boolean-typed does not hold of what was offered to the clause where"
    );
    let error = SelectStatement::new(Source::new(
        "t",
        vec![
            Column::new("a", SqlType::Bool),
            Column::new("a", SqlType::Bool),
        ],
    ))
    .unwrap_err();
    assert_eq!(
        error.message(),
        "valid-source does not hold of what was offered to the clause from"
    );
}
