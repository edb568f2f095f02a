use martlet_proxy::context::RenderContext;
use martlet_proxy::expr::{Expr, FunctionArg};
use martlet_proxy::ident::{Ident, ObjectName};
use martlet_proxy::query::{
    Cte, Fetch, Join, JoinConstraint, JoinOperator, LateralView, Offset, OffsetRows, OrderByExpr,
    Query, Select, SelectItem, SetExpr, SetOperator, TableAlias, TableFactor, TableWithJoins, Top,
    Values, With,
};
use martlet_proxy::rewrite::SQLReWrite;
use martlet_proxy::statement::Statement;
use martlet_proxy::value::Value;

fn text<T: SQLReWrite>(node: &T) -> String {
    let mut out = String::new();
    node.rewrite(&mut out, &RenderContext::new()).unwrap();
    out
}

fn col(s: &str) -> Expr {
    Expr::Identifier(Ident::new(s))
}

fn num(s: &str) -> Expr {
    Expr::Value(Value::Number(s.to_string(), false))
}

fn name(parts: &[&str]) -> ObjectName {
    ObjectName(parts.iter().map(|p| Ident::new(p)).collect())
}

fn plain_table(n: &str) -> TableFactor {
    TableFactor::Table { name: name(&[n]), alias: None, args: vec![], with_hints: vec![] }
}

fn empty_select() -> Select {
    Select {
        distinct: false,
        top: None,
        projection: vec![],
        from: vec![],
        lateral_views: vec![],
        selection: None,
        group_by: vec![],
        cluster_by: vec![],
        distribute_by: vec![],
        sort_by: vec![],
        having: None,
    }
}

fn select_of(e: Expr) -> Select {
    let mut s = empty_select();
    s.projection = vec![SelectItem::UnnamedExpr(e)];
    s
}

fn query_of(body: SetExpr) -> Query {
    Query { with: None, body, order_by: vec![], limit: None, offset: None, fetch: None }
}

fn simple(e: Expr) -> Query {
    query_of(SetExpr::Select(Box::new(select_of(e))))
}

#[test]
fn select_with_every_clause() {
    let s = Select {
        distinct: true,
        top: Some(Top { with_ties: true, percent: true, quantity: Some(num("5")) }),
        projection: vec![
            SelectItem::Wildcard,
            SelectItem::QualifiedWildcard(name(&["t"])),
            SelectItem::ExprWithAlias { expr: col("a"), alias: Ident::new("x") },
        ],
        from: vec![
            TableWithJoins { relation: plain_table("t"), joins: vec![] },
            TableWithJoins { relation: plain_table("u"), joins: vec![] },
        ],
        lateral_views: vec![
            LateralView {
                lateral_view: col("e"),
                lateral_view_name: name(&["lv"]),
                lateral_col_alias: vec![Ident::new("c1"), Ident::new("c2")],
                outer: true,
            },
            LateralView {
                lateral_view: col("f"),
                lateral_view_name: name(&["lw"]),
                lateral_col_alias: vec![],
                outer: false,
            },
        ],
        selection: Some(col("w")),
        group_by: vec![col("g1"), col("g2")],
        cluster_by: vec![col("c")],
        distribute_by: vec![col("d")],
        sort_by: vec![col("s")],
        having: Some(col("h")),
    };
    assert_eq!(
        text(&s),
        "SELECT DISTINCT TOP (5) PERCENT WITH TIES *, t.*, a AS x FROM t, u \
         LATERAL VIEW OUTER e lv AS c1, c2 LATERAL VIEW f lw \
         WHERE w GROUP BY g1, g2 CLUSTER BY c DISTRIBUTE BY d SORT BY s HAVING h"
    );
}

#[test]
fn select_without_projection_keeps_its_space() {
    assert_eq!(text(&empty_select()), "SELECT ");
}

#[test]
fn top_without_quantity() {
    assert_eq!(text(&Top { with_ties: true, percent: true, quantity: None }), "TOP WITH TIES");
    assert_eq!(text(&Top { with_ties: false, percent: false, quantity: None }), "TOP");
    assert_eq!(text(&Top { with_ties: false, percent: false, quantity: Some(num("3")) }), "TOP (3)");
}

#[test]
fn query_with_every_clause() {
    let q = Query {
        with: Some(With {
            recursive: true,
            cte_tables: vec![
                Cte {
                    alias: TableAlias { name: Ident::new("c"), columns: vec![Ident::new("x")] },
                    query: simple(num("1")),
                    from: Some(Ident::new("src")),
                },
                Cte {
                    alias: TableAlias { name: Ident::new("d"), columns: vec![] },
                    query: simple(num("2")),
                    from: None,
                },
            ],
        }),
        body: SetExpr::Select(Box::new(select_of(col("a")))),
        order_by: vec![OrderByExpr { expr: col("a"), asc: Some(true), nulls_first: Some(false) }],
        limit: Some(num("10")),
        offset: Some(Offset { value: num("5"), rows: OffsetRows::Rows }),
        fetch: Some(Fetch { with_ties: false, percent: true, quantity: Some(num("3")) }),
    };
    assert_eq!(
        text(&q),
        "WITH RECURSIVE c (x) AS (SELECT 1) FROM src, d AS (SELECT 2) SELECT a \
         ORDER BY a ASC NULLS LAST LIMIT 10 OFFSET 5 ROWS FETCH FIRST 3 PERCENT ROWS ONLY"
    );
}

#[test]
fn offset_and_fetch_forms() {
    assert_eq!(text(&Offset { value: num("1"), rows: OffsetRows::Omitted }), "OFFSET 1");
    assert_eq!(text(&Offset { value: num("1"), rows: OffsetRows::Row }), "OFFSET 1 ROW");
    assert_eq!(text(&Offset { value: num("2"), rows: OffsetRows::Rows }), "OFFSET 2 ROWS");
    assert_eq!(
        text(&Fetch { with_ties: true, percent: false, quantity: Some(num("2")) }),
        "FETCH FIRST 2 ROWS WITH TIES"
    );
    assert_eq!(
        text(&Fetch { with_ties: false, percent: true, quantity: None }),
        "FETCH FIRST ROWS ONLY"
    );
    assert_eq!(
        text(&Fetch { with_ties: true, percent: false, quantity: None }),
        "FETCH FIRST ROWS WITH TIES"
    );
}

#[test]
fn set_operations_and_nested_queries() {
    let union = SetExpr::SetOperation {
        op: SetOperator::Union,
        all: true,
        left: Box::new(SetExpr::Select(Box::new(select_of(num("1"))))),
        right: Box::new(SetExpr::Query(Box::new(simple(num("2"))))),
    };
    assert_eq!(text(&union), "SELECT 1 UNION ALL (SELECT 2)");
    let except = SetExpr::SetOperation {
        op: SetOperator::Except,
        all: false,
        left: Box::new(SetExpr::Select(Box::new(select_of(num("1"))))),
        right: Box::new(SetExpr::Select(Box::new(select_of(num("2"))))),
    };
    assert_eq!(text(&except), "SELECT 1 EXCEPT SELECT 2");
    assert_eq!(text(&SetOperator::Intersect), "INTERSECT");
    let insert = SetExpr::Insert(Statement::Commit { chain: false });
    assert_eq!(text(&insert), "COMMIT");
}

#[test]
fn values_lists() {
    let v = Values(vec![vec![num("1"), num("2")], vec![num("3")], vec![]]);
    assert_eq!(text(&v), "VALUES (1, 2), (3), ()");
    assert_eq!(text(&Values(vec![])), "VALUES ");
    assert_eq!(text(&query_of(SetExpr::Values(Values(vec![vec![col("a")]])))), "VALUES (a)");
}

#[test]
fn table_factors() {
    let t = TableFactor::Table {
        name: name(&["s", "t"]),
        alias: Some(TableAlias { name: Ident::new("x"), columns: vec![Ident::new("a"), Ident::new("b")] }),
        args: vec![FunctionArg::Unnamed(num("1"))],
        with_hints: vec![col("NOLOCK")],
    };
    assert_eq!(text(&t), "s.t(1) AS x (a, b) WITH (NOLOCK)");
    let derived = TableFactor::Derived {
        lateral: true,
        subquery: Box::new(simple(num("1"))),
        alias: Some(TableAlias { name: Ident::new("d"), columns: vec![] }),
    };
    assert_eq!(text(&derived), "LATERAL (SELECT 1) AS d");
    let plain = TableFactor::Derived { lateral: false, subquery: Box::new(simple(num("1"))), alias: None };
    assert_eq!(text(&plain), "(SELECT 1)");
    let function = TableFactor::TableFunction { expr: col("f"), alias: None };
    assert_eq!(text(&function), "TABLE(f)");
    let nested = TableFactor::NestedJoin(Box::new(TableWithJoins {
        relation: plain_table("a"),
        joins: vec![Join { relation: plain_table("b"), join_operator: JoinOperator::CrossJoin }],
    }));
    assert_eq!(text(&nested), "(a CROSS JOIN b)");
}

#[test]
fn joins_in_every_kind() {
    let cases: Vec<(JoinOperator, &str)> = vec![
        (JoinOperator::Inner(JoinConstraint::On(col("c"))), " JOIN b ON c"),
        (JoinOperator::Inner(JoinConstraint::Natural), " NATURAL JOIN b"),
        (JoinOperator::Inner(JoinConstraint::Unconstrained), " JOIN b"),
        (
            JoinOperator::LeftOuter(JoinConstraint::Using(vec![Ident::new("x"), Ident::new("y")])),
            " LEFT JOIN b USING(x, y)",
        ),
        (JoinOperator::LeftOuter(JoinConstraint::Natural), " NATURAL LEFT JOIN b"),
        (JoinOperator::RightOuter(JoinConstraint::On(col("c"))), " RIGHT JOIN b ON c"),
        (JoinOperator::FullOuter(JoinConstraint::Unconstrained), " FULL JOIN b"),
        (JoinOperator::CrossJoin, " CROSS JOIN b"),
        (JoinOperator::CrossApply, " CROSS APPLY b"),
        (JoinOperator::OuterApply, " OUTER APPLY b"),
    ];
    for (join_operator, expected) in cases {
        let j = Join { relation: plain_table("b"), join_operator };
        assert_eq!(text(&j), expected);
    }
    let chain = TableWithJoins {
        relation: plain_table("a"),
        joins: vec![
            Join { relation: plain_table("b"), join_operator: JoinOperator::CrossJoin },
            Join { relation: plain_table("c"), join_operator: JoinOperator::Inner(JoinConstraint::On(col("k"))) },
        ],
    };
    assert_eq!(text(&chain), "a CROSS JOIN b JOIN c ON k");
}

#[test]
fn order_by_expressions() {
    assert_eq!(text(&OrderByExpr { expr: col("a"), asc: None, nulls_first: None }), "a");
    assert_eq!(text(&OrderByExpr { expr: col("a"), asc: Some(true), nulls_first: None }), "a ASC");
    assert_eq!(text(&OrderByExpr { expr: col("a"), asc: Some(false), nulls_first: Some(true) }), "a DESC NULLS FIRST");
    assert_eq!(text(&OrderByExpr { expr: col("a"), asc: None, nulls_first: Some(false) }), "a NULLS LAST");
}

#[test]
fn select_items() {
    assert_eq!(text(&SelectItem::Wildcard), "*");
    assert_eq!(text(&SelectItem::QualifiedWildcard(name(&["a", "b"]))), "a.b.*");
    assert_eq!(text(&SelectItem::UnnamedExpr(col("a"))), "a");
    assert_eq!(
        text(&SelectItem::ExprWithAlias { expr: col("a"), alias: Ident::with_quote('[', "b c") }),
        "a AS [b c]"
    );
}
