use martlet_proxy::context::RenderContext;
use martlet_proxy::data_type::DataType;
use martlet_proxy::expr::{
    Expr, Function, FunctionArg, ListAgg, ListAggOnOverflow, WindowFrame, WindowFrameBound,
    WindowFrameUnits, WindowSpec,
};
use martlet_proxy::ident::{Ident, ObjectName};
use martlet_proxy::operator::{BinaryOperator, UnaryOperator};
use martlet_proxy::query::{OrderByExpr, Query, Select, SelectItem, SetExpr};
use martlet_proxy::rewrite::SQLReWrite;
use martlet_proxy::value::{DateTimeField, Value};

fn text<T: SQLReWrite>(node: &T) -> String {
    let mut out = String::new();
    node.rewrite(&mut out, &RenderContext::new()).unwrap();
    out
}

fn col(s: &str) -> Expr {
    Expr::Identifier(Ident::new(s))
}

fn boxed(s: &str) -> Box<Expr> {
    Box::new(col(s))
}

fn num(s: &str) -> Expr {
    Expr::Value(Value::Number(s.to_string(), false))
}

fn select_of(e: Expr) -> Box<Query> {
    Box::new(Query {
        with: None,
        body: SetExpr::Select(Box::new(Select {
            distinct: false,
            top: None,
            projection: vec![SelectItem::UnnamedExpr(e)],
            from: vec![],
            lateral_views: vec![],
            selection: None,
            group_by: vec![],
            cluster_by: vec![],
            distribute_by: vec![],
            sort_by: vec![],
            having: None,
        })),
        order_by: vec![],
        limit: None,
        offset: None,
        fetch: None,
    })
}

fn order(s: &str) -> OrderByExpr {
    OrderByExpr { expr: col(s), asc: None, nulls_first: None }
}

#[test]
fn identifiers_and_wildcards() {
    assert_eq!(text(&col("a")), "a");
    assert_eq!(text(&Expr::Wildcard), "*");
    assert_eq!(
        text(&Expr::QualifiedWildcard(vec![Ident::new("s"), Ident::new("t")])),
        "s.t.*"
    );
    assert_eq!(
        text(&Expr::CompoundIdentifier(vec![Ident::new("t"), Ident::with_quote('"', "c d")])),
        "t.\"c d\""
    );
    assert_eq!(text(&Expr::MapAccess { column: boxed("m"), key: "k".to_string() }), "m[\"k\"]");
}

#[test]
fn null_tests() {
    assert_eq!(text(&Expr::IsNull(boxed("a"))), "a IS NULL");
    assert_eq!(text(&Expr::IsNotNull(boxed("a"))), "a IS NOT NULL");
}

#[test]
fn in_list_and_in_subquery() {
    let list = Expr::InList { expr: boxed("a"), list: vec![num("1"), num("2")], negated: false };
    assert_eq!(text(&list), "a IN (1, 2)");
    let not_list = Expr::InList { expr: boxed("a"), list: vec![num("1")], negated: true };
    assert_eq!(text(&not_list), "a NOT IN (1)");
    let empty = Expr::InList { expr: boxed("a"), list: vec![], negated: false };
    assert_eq!(text(&empty), "a IN ()");
    let sub = Expr::InSubquery { expr: boxed("a"), subquery: select_of(col("b")), negated: true };
    assert_eq!(text(&sub), "a NOT IN (SELECT b)");
    let plain = Expr::InSubquery { expr: boxed("a"), subquery: select_of(col("b")), negated: false };
    assert_eq!(text(&plain), "a IN (SELECT b)");
}

#[test]
fn between_with_and_without_negation() {
    let e = Expr::Between { expr: boxed("a"), negated: false, low: Box::new(num("1")), high: Box::new(num("9")) };
    assert_eq!(text(&e), "a BETWEEN 1 AND 9");
    let n = Expr::Between { expr: boxed("a"), negated: true, low: Box::new(num("1")), high: Box::new(num("9")) };
    assert_eq!(text(&n), "a NOT BETWEEN 1 AND 9");
}

#[test]
fn every_binary_operator_has_its_symbol() {
    let cases = [
        (BinaryOperator::Plus, "+"),
        (BinaryOperator::Minus, "-"),
        (BinaryOperator::Multiply, "*"),
        (BinaryOperator::Divide, "/"),
        (BinaryOperator::Modulus, "%"),
        (BinaryOperator::StringConcat, "||"),
        (BinaryOperator::Gt, ">"),
        (BinaryOperator::Lt, "<"),
        (BinaryOperator::GtEq, ">="),
        (BinaryOperator::LtEq, "<="),
        (BinaryOperator::Spaceship, "<=>"),
        (BinaryOperator::Eq, "="),
        (BinaryOperator::NotEq, "<>"),
        (BinaryOperator::And, "AND"),
        (BinaryOperator::Or, "OR"),
        (BinaryOperator::Like, "LIKE"),
        (BinaryOperator::NotLike, "NOT LIKE"),
        (BinaryOperator::ILike, "ILIKE"),
        (BinaryOperator::NotILike, "NOT ILIKE"),
        (BinaryOperator::BitwiseOr, "|"),
        (BinaryOperator::BitwiseAnd, "&"),
        (BinaryOperator::BitwiseXor, "^"),
        (BinaryOperator::PGBitwiseXor, "#"),
        (BinaryOperator::PGBitwiseShiftLeft, "<<"),
        (BinaryOperator::PGBitwiseShiftRight, ">>"),
    ];
    for (op, symbol) in cases {
        assert_eq!(text(&op), symbol);
        let e = Expr::BinaryOp { left: boxed("a"), op, right: boxed("b") };
        assert_eq!(text(&e), format!("a {} b", symbol));
    }
}

#[test]
fn every_unary_operator_has_its_symbol() {
    let cases = [
        (UnaryOperator::Plus, "+"),
        (UnaryOperator::Minus, "-"),
        (UnaryOperator::Not, "NOT"),
        (UnaryOperator::PGBitwiseNot, "~"),
        (UnaryOperator::PGSquareRoot, "|/"),
        (UnaryOperator::PGCubeRoot, "||/"),
        (UnaryOperator::PGPrefixFactorial, "!!"),
        (UnaryOperator::PGAbs, "@"),
    ];
    for (op, symbol) in cases {
        assert_eq!(text(&op), symbol);
        let e = Expr::UnaryOp { op, expr: boxed("a") };
        assert_eq!(text(&e), format!("{} a", symbol));
    }
}

#[test]
fn postfix_factorial_follows_its_operand() {
    let e = Expr::UnaryOp { op: UnaryOperator::PGPostfixFactorial, expr: boxed("a") };
    assert_eq!(text(&e), "a!");
    assert_eq!(text(&UnaryOperator::PGPostfixFactorial), "!");
}

#[test]
fn cast_extract_collate_and_nesting() {
    let cast = Expr::Cast { expr: boxed("a"), data_type: DataType::Varchar(Some(10)) };
    assert_eq!(text(&cast), "CAST(a AS CHARACTER VARYING(10))");
    let extract = Expr::Extract { field: DateTimeField::Year, expr: boxed("d") };
    assert_eq!(text(&extract), "EXTRACT(YEAR FROM d)");
    let collate = Expr::Collate {
        expr: boxed("a"),
        collation: ObjectName(vec![Ident::new("de_DE")]),
    };
    assert_eq!(text(&collate), "a COLLATE de_DE");
    assert_eq!(text(&Expr::Nested(boxed("a"))), "(a)");
    assert_eq!(text(&Expr::Nested(Box::new(Expr::Nested(boxed("a"))))), "((a))");
}

#[test]
fn placeholders_have_no_text() {
    let try_cast = Expr::TryCast { expr: boxed("a"), data_type: DataType::Int };
    assert_eq!(text(&try_cast), "");
    assert_eq!(text(&Expr::ParameterMark("?".to_string())), "");
    let around = Expr::BinaryOp {
        left: boxed("a"),
        op: BinaryOperator::Eq,
        right: Box::new(Expr::ParameterMark("?".to_string())),
    };
    assert_eq!(text(&around), "a = ");
}

#[test]
fn a_malformed_part_of_a_placeholder_is_never_read() {
    let bad = Ident { value: "x".to_string(), quote_style: Some('?') };
    let try_cast = Expr::TryCast {
        expr: Box::new(Expr::Identifier(bad)),
        data_type: DataType::Decimal(None, Some(2)),
    };
    assert_eq!(text(&try_cast), "");
}

#[test]
fn typed_strings_escape_their_quotes() {
    let e = Expr::TypedString { data_type: DataType::Date, value: "2020-01-01".to_string() };
    assert_eq!(text(&e), "DATE '2020-01-01'");
    let quoted = Expr::TypedString { data_type: DataType::Text, value: "it's".to_string() };
    assert_eq!(text(&quoted), "TEXT 'it''s'");
    let many = Expr::TypedString { data_type: DataType::Text, value: "''a'".to_string() };
    assert_eq!(text(&many), "TEXT '''''a'''");
}

#[test]
fn case_pairs_conditions_with_results() {
    let full = Expr::Case {
        operand: Some(boxed("x")),
        conditions: vec![num("1"), num("2")],
        results: vec![col("a"), col("b")],
        else_result: Some(boxed("c")),
    };
    assert_eq!(text(&full), "CASE x WHEN 1 THEN a WHEN 2 THEN b ELSE c END");
    let bare = Expr::Case {
        operand: None,
        conditions: vec![col("p")],
        results: vec![col("a")],
        else_result: None,
    };
    assert_eq!(text(&bare), "CASE WHEN p THEN a END");
    let uneven = Expr::Case {
        operand: None,
        conditions: vec![col("p"), col("q"), col("r")],
        results: vec![col("a")],
        else_result: None,
    };
    assert_eq!(text(&uneven), "CASE WHEN p THEN a END");
    let short = Expr::Case {
        operand: None,
        conditions: vec![col("p")],
        results: vec![col("a"), col("b")],
        else_result: None,
    };
    assert_eq!(text(&short), "CASE WHEN p THEN a END");
    let none = Expr::Case { operand: None, conditions: vec![], results: vec![], else_result: None };
    assert_eq!(text(&none), "CASE END");
}

#[test]
fn exists_and_subquery() {
    assert_eq!(text(&Expr::Exists(select_of(num("1")))), "EXISTS (SELECT 1)");
    assert_eq!(text(&Expr::Subquery(select_of(num("1")))), "(SELECT 1)");
}

#[test]
fn substring_with_its_optional_parts() {
    let full = Expr::Substring {
        expr: boxed("s"),
        substring_from: Some(Box::new(num("2"))),
        substring_for: Some(Box::new(num("3"))),
    };
    assert_eq!(text(&full), "SUBSTRING(s FROM 2 FOR 3)");
    let from = Expr::Substring { expr: boxed("s"), substring_from: Some(Box::new(num("2"))), substring_for: None };
    assert_eq!(text(&from), "SUBSTRING(s FROM 2)");
    let len = Expr::Substring { expr: boxed("s"), substring_from: None, substring_for: Some(Box::new(num("3"))) };
    assert_eq!(text(&len), "SUBSTRING(s FOR 3)");
    let bare = Expr::Substring { expr: boxed("s"), substring_from: None, substring_for: None };
    assert_eq!(text(&bare), "SUBSTRING(s)");
}

#[test]
fn function_calls() {
    let plain = Function {
        name: ObjectName(vec![Ident::new("f")]),
        args: vec![],
        over: None,
        distinct: false,
    };
    assert_eq!(text(&plain), "f()");
    let distinct = Function {
        name: ObjectName(vec![Ident::new("s"), Ident::new("count")]),
        args: vec![
            FunctionArg::Unnamed(col("a")),
            FunctionArg::Named { name: Ident::new("n"), arg: num("1") },
        ],
        over: None,
        distinct: true,
    };
    assert_eq!(text(&distinct), "s.count(DISTINCT a, n => 1)");
    let windowed = Expr::Function(Function {
        name: ObjectName(vec![Ident::new("rank")]),
        args: vec![],
        over: Some(WindowSpec { partition_by: vec![], order_by: vec![], window_frame: None }),
        distinct: false,
    });
    assert_eq!(text(&windowed), "rank() OVER ()");
}

#[test]
fn window_specifications_join_their_clauses_by_one_space() {
    let frame = WindowFrame {
        units: WindowFrameUnits::Rows,
        start_bound: WindowFrameBound::Preceding(Some(5)),
        end_bound: Some(WindowFrameBound::CurrentRow),
    };
    let all = WindowSpec {
        partition_by: vec![col("a"), col("b")],
        order_by: vec![order("c")],
        window_frame: Some(frame.clone()),
    };
    assert_eq!(
        text(&all),
        "PARTITION BY a, b ORDER BY c ROWS BETWEEN 5 PRECEDING AND CURRENT ROW"
    );
    let order_only = WindowSpec { partition_by: vec![], order_by: vec![order("c")], window_frame: None };
    assert_eq!(text(&order_only), "ORDER BY c");
    let frame_only = WindowSpec { partition_by: vec![], order_by: vec![], window_frame: Some(frame.clone()) };
    assert_eq!(text(&frame_only), "ROWS BETWEEN 5 PRECEDING AND CURRENT ROW");
    let partition_frame = WindowSpec {
        partition_by: vec![col("a")],
        order_by: vec![],
        window_frame: Some(WindowFrame {
            units: WindowFrameUnits::Range,
            start_bound: WindowFrameBound::Preceding(None),
            end_bound: None,
        }),
    };
    assert_eq!(text(&partition_frame), "PARTITION BY a RANGE UNBOUNDED PRECEDING");
    let order_frame = WindowSpec {
        partition_by: vec![],
        order_by: vec![order("c")],
        window_frame: Some(WindowFrame {
            units: WindowFrameUnits::Groups,
            start_bound: WindowFrameBound::Following(None),
            end_bound: Some(WindowFrameBound::Following(Some(18446744073709551615))),
        }),
    };
    assert_eq!(
        text(&order_frame),
        "ORDER BY c GROUPS BETWEEN UNBOUNDED FOLLOWING AND 18446744073709551615 FOLLOWING"
    );
    let empty = WindowSpec { partition_by: vec![], order_by: vec![], window_frame: None };
    assert_eq!(text(&empty), "");
}

#[test]
fn window_frame_bounds() {
    assert_eq!(text(&WindowFrameBound::CurrentRow), "CURRENT ROW");
    assert_eq!(text(&WindowFrameBound::Preceding(None)), "UNBOUNDED PRECEDING");
    assert_eq!(text(&WindowFrameBound::Following(None)), "UNBOUNDED FOLLOWING");
    assert_eq!(text(&WindowFrameBound::Preceding(Some(0))), "0 PRECEDING");
    assert_eq!(text(&WindowFrameBound::Following(Some(10))), "10 FOLLOWING");
    assert_eq!(text(&WindowFrameUnits::Rows), "ROWS");
    assert_eq!(text(&WindowFrameUnits::Range), "RANGE");
    assert_eq!(text(&WindowFrameUnits::Groups), "GROUPS");
}

#[test]
fn listagg_in_its_forms() {
    let full = ListAgg {
        distinct: true,
        expr: boxed("a"),
        separator: Some(Box::new(Expr::Value(Value::SingleQuotedString(", ".to_string())))),
        on_overflow: Some(ListAggOnOverflow::Truncate {
            filler: Some(Box::new(Expr::Value(Value::SingleQuotedString("...".to_string())))),
            with_count: true,
        }),
        within_group: vec![order("b"), order("c")],
    };
    assert_eq!(
        text(&full),
        "LISTAGG(DISTINCT a, ', ' ON OVERFLOW TRUNCATE '...' WITH COUNT) WITHIN GROUP (ORDER BY b, c)"
    );
    let bare = Expr::ListAgg(ListAgg {
        distinct: false,
        expr: boxed("a"),
        separator: None,
        on_overflow: None,
        within_group: vec![],
    });
    assert_eq!(text(&bare), "LISTAGG(a)");
    assert_eq!(text(&ListAggOnOverflow::Error), " ON OVERFLOW ERROR");
    let without = ListAggOnOverflow::Truncate { filler: None, with_count: false };
    assert_eq!(text(&without), " ON OVERFLOW TRUNCATE WITHOUT COUNT");
}

#[test]
fn values_inside_expressions() {
    assert_eq!(text(&Expr::Value(Value::Boolean(true))), "true");
    assert_eq!(text(&Expr::Value(Value::Null)), "NULL");
}
