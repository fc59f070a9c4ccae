use select_statement::backend::{Backend, Construct};
use select_statement::clause::{
    DistinctClause, GroupByClause, LimitClause, OffsetClause, OrderClause, SelectClause,
    WhereClause,
};
use select_statement::error::RenderError;
use select_statement::expression::{BinaryOp, Expr, Function};
use select_statement::render::{needs_parentheses, Query, QueryBuilder};
use select_statement::source::{Aliased, Column, FromClause, Source};
use select_statement::statement::SelectStatement;
use select_statement::text::push_decimal;
use select_statement::types::{SqlType, Value};

fn people() -> Source {
    Source::new(
        "people",
        vec![
            Column::new("id", SqlType::Integer),
            Column::new("name", SqlType::Text),
            Column::new("admin", SqlType::Bool),
        ],
    )
}

fn name() -> Expr {
    Expr::column("people", "name", SqlType::Text)
}

fn id() -> Expr {
    Expr::column("people", "id", SqlType::Integer)
}

fn id_is(n: i32) -> Expr {
    Expr::binary(BinaryOp::Eq, id(), Expr::bound(Value::Integer(n)))
}

fn rendered(e: &Expr, backend: Backend, qualified: bool) -> Query {
    let mut out = QueryBuilder::new(backend, qualified);
    out.push_expr(e);
    out.finish()
}

#[test]
fn decimal_numerals_are_exact() {
    let cases: [(usize, &str); 8] = [
        (0, "0"),
        (7, "7"),
        (9, "9"),
        (10, "10"),
        (99, "99"),
        (100, "100"),
        (1234567890, "1234567890"),
        (4294967295, "4294967295"),
    ];
    for (n, expected) in cases {
        let mut s = String::new();
        push_decimal(&mut s, n);
        assert_eq!(s, expected);
    }
    let mut s = String::from("x");
    push_decimal(&mut s, usize::MAX);
    assert_eq!(s, format!("x{}", usize::MAX));
}

#[test]
fn placeholders_follow_the_backend() {
    for (backend, first, twelfth) in [
        (Backend::Postgres, "$1", "$12"),
        (Backend::Sqlite, "?", "?"),
        (Backend::Mysql, "?", "?"),
    ] {
        let mut s = String::new();
        backend.push_placeholder(&mut s, 1);
        assert_eq!(s, first);
        let mut s = String::new();
        backend.push_placeholder(&mut s, 12);
        assert_eq!(s, twelfth);
    }
}

#[test]
fn builder_numbers_binds_from_one() {
    let mut out = QueryBuilder::new(Backend::Postgres, false);
    out.push_sql("a ");
    out.push_bind(Value::Integer(4));
    out.push_sql(" b ");
    out.push_bind(Value::text("x"));
    let query = out.finish();
    assert_eq!(query.sql, "a $1 b $2");
    assert_eq!(query.binds, vec![Value::Integer(4), Value::text("x")]);
}

#[test]
fn tenth_bind_has_two_digits() {
    let mut statement = SelectStatement::new(people()).unwrap();
    for n in 0..11 {
        statement = statement.filter(id_is(n)).unwrap();
    }
    let query = statement.render(Backend::Postgres).unwrap();
    assert!(query.sql.ends_with("AND id = $9 AND id = $10 AND id = $11"));
    assert_eq!(query.binds.len(), 11);
    assert_eq!(query.binds[9], Value::Integer(9));
}

#[test]
fn columns_are_qualified_on_request() {
    assert_eq!(rendered(&name(), Backend::Postgres, false).sql, "name");
    assert_eq!(rendered(&name(), Backend::Postgres, true).sql, "people.name");
}

#[test]
fn operators_and_functions_have_their_keywords() {
    let ops = [
        (BinaryOp::Eq, "="),
        (BinaryOp::NotEq, "<>"),
        (BinaryOp::Lt, "<"),
        (BinaryOp::LtEq, "<="),
        (BinaryOp::Gt, ">"),
        (BinaryOp::GtEq, ">="),
        (BinaryOp::And, "AND"),
        (BinaryOp::Or, "OR"),
        (BinaryOp::Like, "LIKE"),
        (BinaryOp::ILike, "ILIKE"),
    ];
    for (op, keyword) in ops {
        assert_eq!(op.sql(), keyword);
        let e = Expr::binary(op, name(), id());
        assert_eq!(
            rendered(&e, Backend::Sqlite, false).sql,
            format!("name {} id", keyword)
        );
    }
    let functions = [
        (Function::Count, "COUNT"),
        (Function::Max, "MAX"),
        (Function::Min, "MIN"),
        (Function::BoolAnd, "BOOL_AND"),
        (Function::Lower, "LOWER"),
        (Function::Upper, "UPPER"),
    ];
    for (function, keyword) in functions {
        assert_eq!(function.sql(), keyword);
        let e = Expr::call(function, name());
        assert_eq!(
            rendered(&e, Backend::Sqlite, true).sql,
            format!("{}(people.name)", keyword)
        );
    }
}

#[test]
fn parentheses_follow_precedence() {
    let a = || id_is(1);
    let or = Expr::binary(BinaryOp::Or, a(), a());
    let and = Expr::binary(BinaryOp::And, a(), a());
    // A disjunction under a conjunction is wrapped, on either side.
    let e = Expr::binary(BinaryOp::And, or.clone(), or.clone());
    assert_eq!(
        rendered(&e, Backend::Postgres, false).sql,
        "(id = $1 OR id = $2) AND (id = $3 OR id = $4)"
    );
    // A conjunction under a disjunction is not.
    let e = Expr::binary(BinaryOp::Or, and.clone(), and.clone());
    assert_eq!(
        rendered(&e, Backend::Postgres, false).sql,
        "id = $1 AND id = $2 OR id = $3 AND id = $4"
    );
    // Equal logical operators chain without parentheses.
    let e = Expr::binary(BinaryOp::And, and.clone(), and.clone());
    assert_eq!(
        rendered(&e, Backend::Sqlite, false).sql,
        "id = ? AND id = ? AND id = ? AND id = ?"
    );
    // A comparison under a comparison is wrapped.
    let e = Expr::binary(BinaryOp::Eq, a(), Expr::bound(Value::Bool(true)));
    assert_eq!(rendered(&e, Backend::Postgres, false).sql, "(id = $1) = $2");
    let e = Expr::binary(BinaryOp::NotEq, Expr::bound(Value::Bool(true)), and.clone());
    assert_eq!(
        rendered(&e, Backend::Postgres, false).sql,
        "$1 <> (id = $2 AND id = $3)"
    );
    assert!(needs_parentheses(&or, BinaryOp::And));
    assert!(!needs_parentheses(&and, BinaryOp::And));
    assert!(!needs_parentheses(&and, BinaryOp::Or));
    assert!(needs_parentheses(&a(), BinaryOp::Lt));
    assert!(!needs_parentheses(&id(), BinaryOp::Lt));
    assert!(!needs_parentheses(&Expr::call(Function::Count, or), BinaryOp::Eq));
}

#[test]
fn binds_come_in_text_order() {
    let e = Expr::binary(
        BinaryOp::Or,
        Expr::binary(
            BinaryOp::Like,
            Expr::call(Function::Lower, Expr::bound(Value::text("A%"))),
            Expr::bound(Value::text("b")),
        ),
        Expr::binary(BinaryOp::Lt, Expr::bound(Value::BigInt(3)), id()),
    );
    let query = rendered(&e, Backend::Postgres, false);
    assert_eq!(query.sql, "LOWER($1) LIKE $2 OR $3 < id");
    assert_eq!(
        query.binds,
        vec![Value::text("A%"), Value::text("b"), Value::BigInt(3)]
    );
}

#[test]
fn slots_render_in_the_fixed_order() {
    let statement = SelectStatement::new(people())
        .unwrap()
        .offset(40)
        .limit(20)
        .order(Expr::call(Function::Count, Expr::bound(Value::Integer(5))))
        .unwrap()
        .group_by(Expr::call(Function::Lower, Expr::bound(Value::text("g"))))
        .unwrap()
        .filter(id_is(2))
        .unwrap()
        .distinct()
        .select(Expr::call(Function::Upper, Expr::bound(Value::text("s"))))
        .unwrap();
    let query = statement.render(Backend::Postgres).unwrap();
    assert_eq!(
        query.sql,
        "SELECT UPPER($1) FROM people DISTINCT WHERE id = $2 GROUP BY LOWER($3) \
         ORDER BY COUNT($4) LIMIT $5 OFFSET $6"
    );
    assert_eq!(
        query.binds,
        vec![
            Value::text("s"),
            Value::Integer(2),
            Value::text("g"),
            Value::Integer(5),
            Value::BigInt(20),
            Value::BigInt(40),
        ]
    );
}

#[test]
fn each_slot_contributes_its_own_text() {
    let from = FromClause::new(people());
    let mut out = QueryBuilder::new(Backend::Postgres, false);
    out.push_select(&SelectClause::AllColumns, &from);
    out.push_select(&SelectClause::Expression(name()), &from);
    out.push_from(&from);
    out.push_distinct(DistinctClause::NoDistinct);
    out.push_distinct(DistinctClause::Distinct);
    out.push_where(&WhereClause::NoWhere);
    out.push_where(&WhereClause::Where(id_is(1)));
    out.push_predicate(&id_is(2));
    out.push_group_by(&GroupByClause::NoGroupBy);
    out.push_group_by(&GroupByClause::GroupBy(id()));
    out.push_order(&OrderClause::NoOrder);
    out.push_order(&OrderClause::Order(name()));
    out.push_limit(LimitClause::NoLimit);
    out.push_limit(LimitClause::Limit(-1));
    out.push_offset(OffsetClause::NoOffset);
    out.push_offset(OffsetClause::Offset(0));
    let query = out.finish();
    assert_eq!(
        query.sql,
        "SELECT *SELECT name FROM people DISTINCT WHERE id = $1 WHERE id = $2 \
         GROUP BY id ORDER BY name LIMIT $3 OFFSET $4"
    );
    assert_eq!(
        query.binds,
        vec![
            Value::Integer(1),
            Value::Integer(2),
            Value::BigInt(-1),
            Value::BigInt(0)
        ]
    );
}

#[test]
fn from_lists_merged_sources_in_order() {
    let from = FromClause::new(people())
        .merge(Aliased::new(people(), "a"))
        .merge(Aliased::new(Source::new("pets", vec![]), "b"));
    assert!(from.is_joined());
    let mut out = QueryBuilder::new(Backend::Sqlite, true);
    out.push_from(&from);
    out.push_select(&SelectClause::AllColumns, &from);
    assert_eq!(
        out.finish().sql,
        " FROM people, people AS a, pets AS bSELECT people.*"
    );
}

#[test]
fn ilike_needs_postgres() {
    let e = Expr::binary(BinaryOp::ILike, name(), Expr::bound(Value::text("a%")));
    let statement = SelectStatement::new(people()).unwrap().filter(e).unwrap();
    assert_eq!(
        statement.render(Backend::Postgres).unwrap().sql,
        "SELECT * FROM people WHERE name ILIKE $1"
    );
    for backend in [Backend::Sqlite, Backend::Mysql] {
        assert_eq!(
            statement.render(backend),
            Err(RenderError {
                backend,
                construct: Construct::Operator(BinaryOp::ILike)
            })
        );
        assert_eq!(
            statement.first_unsupported(backend),
            Some(Construct::Operator(BinaryOp::ILike))
        );
    }
    assert_eq!(statement.first_unsupported(Backend::Postgres), None);
}

#[test]
fn first_unsupported_construct_is_reported() {
    let all = Expr::call(Function::BoolAnd, Expr::column("people", "admin", SqlType::Bool));
    let like = Expr::binary(BinaryOp::ILike, name(), name());
    // In an expression: left operand, operator, right operand.
    let e = Expr::binary(BinaryOp::And, like.clone(), all.clone());
    assert_eq!(
        e.first_unsupported(Backend::Mysql),
        Some(Construct::Operator(BinaryOp::ILike))
    );
    let e = Expr::binary(BinaryOp::ILike, Expr::call(Function::BoolAnd, name()), name());
    assert_eq!(
        e.first_unsupported(Backend::Mysql),
        Some(Construct::Function(Function::BoolAnd))
    );
    assert_eq!(e.first_unsupported(Backend::Postgres), None);
    // In a statement: select before where before order.
    let statement = SelectStatement::new(people())
        .unwrap()
        .order(like.clone())
        .unwrap()
        .filter(like)
        .unwrap();
    assert_eq!(
        statement.select(all).unwrap().render(Backend::Sqlite),
        Err(RenderError {
            backend: Backend::Sqlite,
            construct: Construct::Function(Function::BoolAnd)
        })
    );
    assert_eq!(
        statement.offset(1).render(Backend::Sqlite),
        Err(RenderError {
            backend: Backend::Sqlite,
            construct: Construct::Operator(BinaryOp::ILike)
        })
    );
}

#[test]
fn offset_without_limit_needs_postgres() {
    let statement = SelectStatement::new(people()).unwrap().offset(3);
    assert_eq!(
        statement.render(Backend::Postgres).unwrap().sql,
        "SELECT * FROM people OFFSET $1"
    );
    for backend in [Backend::Sqlite, Backend::Mysql] {
        assert_eq!(
            statement.render(backend),
            Err(RenderError {
                backend,
                construct: Construct::OffsetWithoutLimit
            })
        );
        assert_eq!(
            statement.limit(1).render(backend).unwrap().sql,
            "SELECT * FROM people LIMIT ? OFFSET ?"
        );
    }
}

#[test]
fn backends_say_what_they_support() {
    for backend in [Backend::Postgres, Backend::Sqlite, Backend::Mysql] {
        let postgres = backend == Backend::Postgres;
        assert!(backend.can_render(Construct::Operator(BinaryOp::Like)));
        assert!(backend.can_render(Construct::Operator(BinaryOp::Eq)));
        assert!(backend.can_render(Construct::Function(Function::Count)));
        assert_eq!(backend.can_render(Construct::Operator(BinaryOp::ILike)), postgres);
        assert_eq!(backend.can_render(Construct::Function(Function::BoolAnd)), postgres);
        assert_eq!(backend.can_render(Construct::OffsetWithoutLimit), postgres);
    }
    assert_eq!(Backend::Postgres.name(), "postgres");
    assert_eq!(Backend::Sqlite.name(), "sqlite");
    assert_eq!(Backend::Mysql.name(), "mysql");
}

#[test]
fn render_errors_name_backend_and_construct() {
    let error = RenderError {
        backend: Backend::Sqlite,
        construct: Construct::Operator(BinaryOp::ILike),
    };
    assert_eq!(error.message(), "backend sqlite cannot render operator ILIKE");
    let error = RenderError {
        backend: Backend::Mysql,
        construct: Construct::Function(Function::BoolAnd),
    };
    assert_eq!(error.message(), "backend mysql cannot render function BOOL_AND");
    let error = RenderError {
        backend: Backend::Mysql,
        construct: Construct::OffsetWithoutLimit,
    };
    assert_eq!(error.message(), "backend mysql cannot render OFFSET without LIMIT");
    assert_eq!(Construct::OffsetWithoutLimit.describe(), "OFFSET without LIMIT");
}
