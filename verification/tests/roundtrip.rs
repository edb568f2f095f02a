use martlet_proxy::context::RenderContext;
use martlet_proxy::data_type::DataType;
use martlet_proxy::ddl::{
    AlterTableOperation, ColumnDef, ColumnOption, ColumnOptionDef, TableConstraint,
};
use martlet_proxy::expr::{
    Expr, Function, FunctionArg, WindowFrame, WindowFrameBound, WindowFrameUnits, WindowSpec,
};
use martlet_proxy::ident::{Ident, ObjectName};
use martlet_proxy::operator::{BinaryOperator, UnaryOperator};
use martlet_proxy::query::{
    Cte, Join, JoinConstraint, JoinOperator, Offset, OffsetRows, OrderByExpr, Query, Select,
    SelectItem, SetExpr, SetOperator, TableAlias, TableFactor, TableWithJoins, Values, With,
};
use martlet_proxy::rewrite::SQLReWrite;
use martlet_proxy::statement::{
    Assignment, FileFormat, HiveDistributionStyle, ObjectType, SetVariableValue, ShowStatementFilter,
    SqlOption, Statement, TransactionAccessMode, TransactionIsolationLevel, TransactionMode,
};
use martlet_proxy::value::{DateTimeField, Value};
use sqlparser::dialect::keywords::Keyword;
use sqlparser::dialect::GenericDialect;
use sqlparser::parser::Parser;
use sqlparser::tokenizer::{Token, Tokenizer};

fn render(stmt: &Statement) -> String {
    let mut out = String::new();
    stmt.rewrite(&mut out, &RenderContext::new()).unwrap();
    out
}

/// The canonical text of what the parser reads from `sql`.
fn reparsed(sql: &str) -> String {
    let parsed = Parser::parse_sql(&GenericDialect {}, sql).unwrap();
    assert_eq!(parsed.len(), 1);
    parsed[0].to_string()
}

fn col(s: &str) -> Expr {
    Expr::Identifier(Ident::new(s))
}

fn num(s: &str) -> Expr {
    Expr::Value(Value::Number(s.to_string(), false))
}

fn name(parts: &[&str]) -> ObjectName {
    ObjectName(parts.iter().map(|p| Ident::new(p)).collect())
}

fn query(projection: Vec<SelectItem>, table: &str, selection: Option<Expr>, order_by: Vec<OrderByExpr>) -> Box<Query> {
    Box::new(Query {
        with: None,
        body: SetExpr::Select(Box::new(Select {
            distinct: false,
            top: None,
            projection,
            from: vec![TableWithJoins {
                relation: TableFactor::Table {
                    name: name(&[table]),
                    alias: None,
                    args: vec![],
                    with_hints: vec![],
                },
                joins: vec![],
            }],
            lateral_views: vec![],
            selection,
            group_by: vec![],
            cluster_by: vec![],
            distribute_by: vec![],
            sort_by: vec![],
            having: None,
        })),
        order_by,
        limit: None,
        offset: None,
        fetch: None,
    })
}

fn sample_select() -> Statement {
    let selection = Expr::BinaryOp {
        left: Box::new(Expr::BinaryOp {
            left: Box::new(col("a")),
            op: BinaryOperator::Gt,
            right: Box::new(col("b")),
        }),
        op: BinaryOperator::And,
        right: Box::new(Expr::BinaryOp {
            left: Box::new(col("b")),
            op: BinaryOperator::Lt,
            right: Box::new(num("100")),
        }),
    };
    Statement::Query(query(
        vec![
            SelectItem::UnnamedExpr(col("a")),
            SelectItem::UnnamedExpr(col("b")),
            SelectItem::UnnamedExpr(num("123")),
            SelectItem::UnnamedExpr(Expr::Function(Function {
                name: name(&["myfunc"]),
                args: vec![FunctionArg::Unnamed(col("b"))],
                over: None,
                distinct: false,
            })),
        ],
        "table_1",
        Some(selection),
        vec![
            OrderByExpr { expr: col("a"), asc: Some(false), nulls_first: None },
            OrderByExpr { expr: col("b"), asc: None, nulls_first: None },
        ],
    ))
}

#[test]
fn rendered_select_reads_back_as_itself() {
    let text = render(&sample_select());
    assert_eq!(
        text,
        "SELECT a, b, 123, myfunc(b) FROM table_1 WHERE a > b AND b < 100 ORDER BY a DESC, b"
    );
    assert_eq!(reparsed(&text), text);
}

#[test]
fn rendered_statements_read_back_as_themselves() {
    let statements = vec![
        Statement::Delete {
            table_name: name(&["s", "t"]),
            selection: Some(Expr::IsNotNull(Box::new(col("a")))),
        },
        Statement::Insert {
            or: None,
            table_name: name(&["t"]),
            columns: vec![Ident::new("a"), Ident::with_quote('"', "b c")],
            overwrite: false,
            source: query(vec![SelectItem::Wildcard], "u", None, vec![]),
            partitioned: None,
            after_columns: vec![],
            table: false,
        },
        Statement::CreateTable {
            or_replace: false,
            temporary: false,
            external: false,
            if_not_exists: true,
            name: name(&["t"]),
            columns: vec![
                ColumnDef {
                    name: Ident::new("id"),
                    data_type: DataType::Int,
                    collation: None,
                    options: vec![ColumnOptionDef { name: None, option: ColumnOption::NotNull }],
                },
                ColumnDef {
                    name: Ident::new("label"),
                    data_type: DataType::Varchar(Some(20)),
                    collation: None,
                    options: vec![ColumnOptionDef {
                        name: None,
                        option: ColumnOption::Default(Expr::Value(Value::SingleQuotedString(
                            "it's".to_string(),
                        ))),
                    }],
                },
            ],
            constraints: vec![],
            hive_distribution: HiveDistributionStyle::NONE,
            hive_formats: None,
            table_properties: vec![],
            with_options: vec![],
            file_format: None,
            location: None,
            query: None,
            without_rowid: false,
            like: None,
        },
        Statement::CreateTable {
            or_replace: false,
            temporary: false,
            external: false,
            if_not_exists: false,
            name: name(&["empty"]),
            columns: vec![],
            constraints: vec![],
            hive_distribution: HiveDistributionStyle::NONE,
            hive_formats: None,
            table_properties: vec![],
            with_options: vec![],
            file_format: None,
            location: None,
            query: None,
            without_rowid: false,
            like: None,
        },
        Statement::Commit { chain: true },
        Statement::Rollback { chain: false, savepoint: None },
        Statement::StartTransaction { modes: vec![] },
    ];
    for statement in statements {
        let text = render(&statement);
        assert_eq!(reparsed(&text), text);
    }
}

#[test]
fn escaped_text_reads_back_in_one_literal() {
    let statement = Statement::Query(query(
        vec![SelectItem::UnnamedExpr(Expr::TypedString {
            data_type: DataType::Date,
            value: "a'b''c'".to_string(),
        })],
        "t",
        None,
        vec![],
    ));
    let text = render(&statement);
    assert_eq!(text, "SELECT DATE 'a''b''''c''' FROM t");
    let parsed = Parser::parse_sql(&GenericDialect {}, &text).unwrap();
    let expected = sqlparser::ast::Expr::TypedString {
        data_type: sqlparser::ast::DataType::Date,
        value: "a'b''c'".to_string(),
    };
    match &parsed[0] {
        sqlparser::ast::Statement::Query(q) => match &q.body {
            sqlparser::ast::SetExpr::Select(s) => {
                assert_eq!(s.projection, vec![sqlparser::ast::SelectItem::UnnamedExpr(expected)]);
            }
            other => panic!("unexpected body {:?}", other),
        },
        other => panic!("unexpected statement {:?}", other),
    }
}

fn table(n: &str) -> TableFactor {
    TableFactor::Table { name: name(&[n]), alias: None, args: vec![], with_hints: vec![] }
}

fn full_query() -> Box<Query> {
    let case = Expr::Case {
        operand: None,
        conditions: vec![Expr::BinaryOp {
            left: Box::new(col("a")),
            op: BinaryOperator::GtEq,
            right: Box::new(num("0")),
        }],
        results: vec![Expr::Value(Value::SingleQuotedString("pos".to_string()))],
        else_result: Some(Box::new(Expr::Value(Value::Null))),
    };
    let windowed = Expr::Function(Function {
        name: name(&["row_number"]),
        args: vec![],
        over: Some(WindowSpec {
            partition_by: vec![col("a")],
            order_by: vec![OrderByExpr { expr: col("b"), asc: Some(true), nulls_first: None }],
            window_frame: Some(WindowFrame {
                units: WindowFrameUnits::Rows,
                start_bound: WindowFrameBound::Preceding(Some(2)),
                end_bound: Some(WindowFrameBound::CurrentRow),
            }),
        }),
        distinct: false,
    });
    Box::new(Query {
        with: Some(With {
            recursive: false,
            cte_tables: vec![Cte {
                alias: TableAlias { name: Ident::new("c"), columns: vec![Ident::new("x")] },
                query: *query(vec![SelectItem::UnnamedExpr(num("1"))], "t0", None, vec![]),
                from: None,
            }],
        }),
        body: SetExpr::SetOperation {
            op: SetOperator::Union,
            all: true,
            left: Box::new(SetExpr::Select(Box::new(Select {
                distinct: true,
                top: None,
                projection: vec![
                    SelectItem::ExprWithAlias { expr: case, alias: Ident::new("sign") },
                    SelectItem::UnnamedExpr(windowed),
                    SelectItem::QualifiedWildcard(name(&["t"])),
                ],
                from: vec![TableWithJoins {
                    relation: TableFactor::Table {
                        name: name(&["s", "t"]),
                        alias: Some(TableAlias { name: Ident::new("t"), columns: vec![] }),
                        args: vec![],
                        with_hints: vec![],
                    },
                    joins: vec![
                        Join {
                            relation: table("u"),
                            join_operator: JoinOperator::LeftOuter(JoinConstraint::On(
                                Expr::BinaryOp {
                                    left: Box::new(Expr::CompoundIdentifier(vec![
                                        Ident::new("t"),
                                        Ident::new("id"),
                                    ])),
                                    op: BinaryOperator::Eq,
                                    right: Box::new(Expr::CompoundIdentifier(vec![
                                        Ident::new("u"),
                                        Ident::new("id"),
                                    ])),
                                },
                            )),
                        },
                        Join {
                            relation: table("w"),
                            join_operator: JoinOperator::Inner(JoinConstraint::Using(vec![
                                Ident::new("id"),
                            ])),
                        },
                        Join { relation: table("x"), join_operator: JoinOperator::CrossJoin },
                    ],
                }],
                lateral_views: vec![],
                selection: Some(Expr::Between {
                    expr: Box::new(col("a")),
                    negated: true,
                    low: Box::new(num("1")),
                    high: Box::new(num("9")),
                }),
                group_by: vec![col("a"), col("b")],
                cluster_by: vec![],
                distribute_by: vec![],
                sort_by: vec![],
                having: Some(Expr::IsNull(Box::new(col("b")))),
            }))),
            right: Box::new(SetExpr::Values(Values(vec![
                vec![num("1"), Expr::Value(Value::Boolean(true))],
                vec![num("2"), Expr::Value(Value::Boolean(false))],
            ]))),
        },
        order_by: vec![OrderByExpr { expr: col("a"), asc: Some(false), nulls_first: Some(true) }],
        limit: Some(num("10")),
        offset: Some(Offset { value: num("5"), rows: OffsetRows::Rows }),
        fetch: None,
    })
}

#[test]
fn a_query_with_many_clauses_reads_back_as_itself() {
    let text = render(&Statement::Query(full_query()));
    assert_eq!(
        text,
        "WITH c (x) AS (SELECT 1 FROM t0) SELECT DISTINCT CASE WHEN a >= 0 THEN 'pos' ELSE NULL END AS sign, \
         row_number() OVER (PARTITION BY a ORDER BY b ASC ROWS BETWEEN 2 PRECEDING AND CURRENT ROW), t.* \
         FROM s.t AS t LEFT JOIN u ON t.id = u.id JOIN w USING(id) CROSS JOIN x \
         WHERE a NOT BETWEEN 1 AND 9 GROUP BY a, b HAVING b IS NULL \
         UNION ALL VALUES (1, true), (2, false) ORDER BY a DESC NULLS FIRST LIMIT 10 OFFSET 5 ROWS"
    );
    assert_eq!(reparsed(&text), text);
}

#[test]
fn expressions_read_back_as_themselves() {
    let expressions = vec![
        Expr::Cast { expr: Box::new(col("a")), data_type: DataType::Decimal(Some(10), Some(2)) },
        Expr::Extract { field: DateTimeField::Month, expr: Box::new(col("d")) },
        Expr::InList { expr: Box::new(col("a")), list: vec![num("1"), num("2")], negated: true },
        Expr::UnaryOp { op: UnaryOperator::Not, expr: Box::new(col("a")) },
        Expr::UnaryOp { op: UnaryOperator::Minus, expr: Box::new(num("1")) },
        Expr::Nested(Box::new(Expr::BinaryOp {
            left: Box::new(col("a")),
            op: BinaryOperator::Or,
            right: Box::new(col("b")),
        })),
        Expr::Substring {
            expr: Box::new(col("s")),
            substring_from: Some(Box::new(num("1"))),
            substring_for: Some(Box::new(num("2"))),
        },
        Expr::Exists(query(vec![SelectItem::Wildcard], "t", None, vec![])),
        Expr::Function(Function {
            name: name(&["count"]),
            args: vec![FunctionArg::Unnamed(col("a"))],
            over: None,
            distinct: true,
        }),
        Expr::Value(Value::HexStringLiteral("ff".to_string())),
        Expr::Value(Value::NationalStringLiteral("n".to_string())),
        Expr::Value(Value::Interval {
            value: "1".to_string(),
            leading_field: Some(DateTimeField::Day),
            leading_precision: None,
            last_field: None,
            fractional_seconds_precision: None,
        }),
        Expr::TypedString { data_type: DataType::Timestamp, value: "2020-01-01 00:00:00".to_string() },
        Expr::Collate { expr: Box::new(col("a")), collation: name(&["de_DE"]) },
        Expr::IsNotNull(Box::new(col("a"))),
        Expr::BinaryOp {
            left: Box::new(col("a")),
            op: BinaryOperator::NotLike,
            right: Box::new(Expr::Value(Value::SingleQuotedString("x%".to_string()))),
        },
    ];
    for e in expressions {
        let statement = Statement::Query(query(vec![SelectItem::UnnamedExpr(e)], "t", None, vec![]));
        let text = render(&statement);
        assert_eq!(reparsed(&text), text);
    }
}

#[test]
fn definitions_read_back_as_themselves() {
    let statements = vec![
        Statement::CreateView {
            or_replace: true,
            materialized: false,
            name: name(&["v"]),
            columns: vec![Ident::new("a"), Ident::new("b")],
            query: query(vec![SelectItem::Wildcard], "t", None, vec![]),
            with_options: vec![],
        },
        Statement::Directory {
            overwrite: true,
            local: true,
            path: "/out".to_string(),
            file_format: Some(FileFormat::JSONFILE),
            source: query(vec![SelectItem::Wildcard], "t", None, vec![]),
        },
        Statement::CreateIndex {
            name: name(&["idx"]),
            table_name: name(&["t"]),
            columns: vec![
                OrderByExpr { expr: col("a"), asc: None, nulls_first: None },
                OrderByExpr { expr: col("b"), asc: Some(false), nulls_first: None },
            ],
            unique: true,
            if_not_exists: true,
        },
        Statement::CreateSchema { schema_name: name(&["s"]), if_not_exists: true },
        Statement::Drop {
            object_type: ObjectType::Table,
            if_exists: true,
            names: vec![name(&["a"]), name(&["b"])],
            cascade: true,
            purge: false,
        },
        Statement::AlterTable {
            name: name(&["t"]),
            operation: AlterTableOperation::AddColumn {
                column_def: ColumnDef {
                    name: Ident::new("c"),
                    data_type: DataType::Boolean,
                    collation: None,
                    options: vec![
                        ColumnOptionDef { name: None, option: ColumnOption::NotNull },
                        ColumnOptionDef {
                            name: Some(Ident::new("u")),
                            option: ColumnOption::Unique { is_primary: false },
                        },
                    ],
                },
            },
        },
        Statement::AlterTable {
            name: name(&["t"]),
            operation: AlterTableOperation::RenameColumn {
                old_column_name: Ident::new("a"),
                new_column_name: Ident::new("b"),
            },
        },
        Statement::AlterTable {
            name: name(&["t"]),
            operation: AlterTableOperation::AddConstraint(TableConstraint::ForeignKey {
                name: Some(Ident::new("fk")),
                columns: vec![Ident::new("a")],
                foreign_table: name(&["o"]),
                referred_columns: vec![Ident::new("id")],
            }),
        },
        Statement::AlterTable {
            name: name(&["t"]),
            operation: AlterTableOperation::DropColumn {
                column_name: Ident::new("a"),
                if_exists: true,
                cascade: true,
            },
        },
        Statement::Update {
            table_name: name(&["t"]),
            assignments: vec![Assignment { id: Ident::new("a"), value: num("1") }],
            selection: Some(col("b")),
            limit: None,
        },
        Statement::SetVariable {
            local: true,
            hivevar: false,
            variable: Ident::new("x"),
            value: vec![SetVariableValue::Literal(Value::Number("1".to_string(), false))],
        },
        Statement::ShowColumns {
            extended: true,
            full: true,
            table_name: name(&["t"]),
            filter: Some(ShowStatementFilter::Like("a'%".to_string())),
        },
        Statement::Explain {
            analyze: true,
            verbose: false,
            statement: Box::new(Statement::Query(query(vec![SelectItem::Wildcard], "t", None, vec![]))),
        },
        Statement::SetTransaction {
            session: false,
            modes: vec![
                TransactionMode::AccessMode(TransactionAccessMode::ReadOnly),
                TransactionMode::IsolationLevel(TransactionIsolationLevel::RepeatableRead),
            ],
        },
        Statement::Truncate { table_name: name(&["t"]), partitions: None },
        Statement::Deallocate { name: Ident::new("p"), prepare: true },
        Statement::Assert { condition: col("c"), message: Some(col("m")) },
    ];
    for statement in statements {
        let text = render(&statement);
        assert_eq!(reparsed(&text), text);
    }
}

/// What the parser reads from `sql`, where that is one statement.
fn parsed(sql: &str) -> sqlparser::ast::Statement {
    let mut statements = Parser::parse_sql(&GenericDialect {}, sql).unwrap();
    assert_eq!(statements.len(), 1);
    statements.remove(0)
}

#[test]
fn execute_with_parameters_reads_back_as_itself() {
    let statement = Statement::Execute {
        name: Ident::new("p"),
        parameters: vec![col("x"), col("y")],
    };
    let text = render(&statement);
    assert_eq!(text, "EXECUTE p(x, y)");
    assert_eq!(reparsed(&text), text);
}

/// What the parser's reader of `CREATE DATABASE` holds of `sql`. The
/// parser's entry for whole statements does not reach that reader, so the
/// two keywords are taken here.
fn parsed_create_database(sql: &str) -> sqlparser::ast::Statement {
    let dialect = GenericDialect {};
    let tokens = Tokenizer::new(&dialect, sql).tokenize().unwrap();
    let mut parser = Parser::new(tokens, &dialect);
    parser.expect_keyword(Keyword::CREATE).unwrap();
    parser.expect_keyword(Keyword::DATABASE).unwrap();
    let statement = parser.parse_create_database().unwrap();
    assert_eq!(parser.next_token(), Token::EOF);
    statement
}

#[test]
fn create_database_reads_back_as_the_same_statement() {
    let statement = Statement::CreateDatabase {
        db_name: name(&["d"]),
        if_not_exists: false,
        location: None,
        managed_location: None,
    };
    let text = render(&statement);
    assert_eq!(text, "CREATE DATABASE d");
    assert_eq!(
        parsed_create_database(&text),
        sqlparser::ast::Statement::CreateDatabase {
            db_name: sqlparser::ast::ObjectName(vec![sqlparser::ast::Ident::new("d")]),
            if_not_exists: false,
            location: None,
            managed_location: None,
        }
    );
    let guarded = Statement::CreateDatabase {
        db_name: name(&["d"]),
        if_not_exists: true,
        location: Some("/l".to_string()),
        managed_location: Some("/m".to_string()),
    };
    let text = render(&guarded);
    assert_eq!(text, "CREATE DATABASE IF NOT EXISTS d LOCATION '/l' MANAGEDLOCATION '/m'");
    assert_eq!(
        parsed_create_database(&text),
        sqlparser::ast::Statement::CreateDatabase {
            db_name: sqlparser::ast::ObjectName(vec![sqlparser::ast::Ident::new("d")]),
            if_not_exists: true,
            location: Some("/l".to_string()),
            managed_location: Some("/m".to_string()),
        }
    );
}

#[test]
fn every_file_format_reads_back_as_itself() {
    let formats = vec![
        (FileFormat::TEXTFILE, sqlparser::ast::FileFormat::TEXTFILE),
        (FileFormat::SEQUENCEFILE, sqlparser::ast::FileFormat::SEQUENCEFILE),
        (FileFormat::ORC, sqlparser::ast::FileFormat::ORC),
        (FileFormat::PARQUET, sqlparser::ast::FileFormat::PARQUET),
        (FileFormat::AVRO, sqlparser::ast::FileFormat::AVRO),
        (FileFormat::RCFILE, sqlparser::ast::FileFormat::RCFILE),
        (FileFormat::JSONFILE, sqlparser::ast::FileFormat::JSONFILE),
    ];
    for (format, expected) in formats {
        let statement = Statement::CreateTable {
            or_replace: false,
            temporary: false,
            external: true,
            if_not_exists: false,
            name: name(&["t"]),
            columns: vec![ColumnDef {
                name: Ident::new("a"),
                data_type: DataType::Int,
                collation: None,
                options: vec![],
            }],
            constraints: vec![],
            hive_distribution: HiveDistributionStyle::NONE,
            hive_formats: None,
            table_properties: vec![],
            with_options: vec![],
            file_format: Some(format),
            location: Some("/data".to_string()),
            query: None,
            without_rowid: false,
            like: None,
        };
        let text = render(&statement);
        match parsed(&text) {
            sqlparser::ast::Statement::CreateTable { external, file_format, location, .. } => {
                assert!(external);
                assert_eq!(file_format, Some(expected));
                assert_eq!(location, Some("/data".to_string()));
            }
            other => panic!("unexpected statement {:?}", other),
        }
    }
}

#[test]
fn a_view_with_columns_and_options_reads_back_as_the_same_statement() {
    let statement = Statement::CreateView {
        or_replace: false,
        materialized: true,
        name: name(&["v"]),
        columns: vec![Ident::new("a"), Ident::new("b")],
        query: query(vec![SelectItem::Wildcard], "t", None, vec![]),
        with_options: vec![SqlOption {
            name: Ident::new("k"),
            value: Value::SingleQuotedString("v".to_string()),
        }],
    };
    let text = render(&statement);
    assert_eq!(text, "CREATE MATERIALIZED VIEW v (a, b) WITH (k = 'v') AS SELECT * FROM t");
    match parsed(&text) {
        sqlparser::ast::Statement::CreateView {
            or_replace,
            materialized,
            name,
            columns,
            query,
            with_options,
        } => {
            assert!(!or_replace);
            assert!(materialized);
            assert_eq!(name.to_string(), "v");
            assert_eq!(
                columns,
                vec![sqlparser::ast::Ident::new("a"), sqlparser::ast::Ident::new("b")]
            );
            assert_eq!(query.to_string(), "SELECT * FROM t");
            assert_eq!(
                with_options,
                vec![sqlparser::ast::SqlOption {
                    name: sqlparser::ast::Ident::new("k"),
                    value: sqlparser::ast::Value::SingleQuotedString("v".to_string()),
                }]
            );
        }
        other => panic!("unexpected statement {:?}", other),
    }
}
