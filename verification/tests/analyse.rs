use martlet_proxy::analyse::ddl::display_constraint_name;
use martlet_proxy::analyse::{
    analyse_all, Accumulator, AnalyseError, NameCollector, SAResult, SQLAnalyse, Traced,
};
use martlet_proxy::data_type::DataType;
use martlet_proxy::ddl::{
    AlterTableOperation, ColumnDef, ColumnOption, ColumnOptionDef, ReferentialAction,
    TableConstraint,
};
use martlet_proxy::expr::{Expr, Function, FunctionArg};
use martlet_proxy::ident::{Ident, ObjectName};
use martlet_proxy::operator::BinaryOperator;
use martlet_proxy::query::{
    Join, JoinConstraint, JoinOperator, OrderByExpr, Query, Select, SelectItem, SetExpr,
    TableAlias, TableFactor, TableWithJoins,
};
use martlet_proxy::statement::{
    Assignment, HiveDistributionStyle, ObjectType, SetVariableValue, SqlOption, Statement,
};
use martlet_proxy::tokenizer::{Token, Word};
use martlet_proxy::value::Value;

/// An accumulator that keeps a line for everything it is handed and refuses
/// the line that is marked.
struct Log {
    lines: Vec<String>,
    marked: Option<String>,
}

impl Log {
    fn new() -> Traced<Log> {
        Traced::new(Log { lines: vec![], marked: None })
    }

    fn failing_on(line: &str) -> Traced<Log> {
        Traced::new(Log { lines: vec![], marked: Some(line.to_string()) })
    }

    fn take(&mut self, line: String) -> SAResult {
        let refused = self.marked.as_deref() == Some(line.as_str());
        self.lines.push(line.clone());
        if refused {
            Err(AnalyseError { reason: line })
        } else {
            Ok(())
        }
    }
}

impl Accumulator for Log {
    fn record_name(&mut self, name: &Ident) -> SAResult {
        self.take(format!("name {}", name.value))
    }

    fn record_object(&mut self, name: &ObjectName) -> SAResult {
        let parts: Vec<String> = name.0.iter().map(|p| p.value.clone()).collect();
        self.take(format!("object {}", parts.join(".")))
    }

    fn record_type(&mut self, data_type: &DataType) -> SAResult {
        self.take(format!("type {:?}", data_type))
    }

    fn record_value(&mut self, value: &Value) -> SAResult {
        self.take(format!("value {:?}", value))
    }

    fn record_token(&mut self, token: &Token) -> SAResult {
        self.take(format!("token {:?}", token))
    }
}

fn names(collector: &Traced<NameCollector>) -> Vec<String> {
    collector.get().names().clone()
}

fn collecting() -> Traced<NameCollector> {
    Traced::new(NameCollector::new(None))
}

fn idents(values: &[&str]) -> Vec<Ident> {
    values.iter().map(|v| Ident::new(v)).collect()
}

fn object(values: &[&str]) -> ObjectName {
    ObjectName(idents(values))
}

fn col(s: &str) -> Expr {
    Expr::Identifier(Ident::new(s))
}

fn num(s: &str) -> Expr {
    Expr::Value(Value::Number(s.to_string(), false))
}

fn denied(value: &str) -> Traced<NameCollector> {
    Traced::new(NameCollector::new(Some(value.to_string())))
}

fn refusal(value: &str) -> Result<(), AnalyseError> {
    Err(AnalyseError { reason: value.to_string() })
}

fn table(n: &str, alias: Option<&str>) -> TableFactor {
    TableFactor::Table {
        name: object(&[n]),
        alias: alias.map(|a| TableAlias { name: Ident::new(a), columns: vec![] }),
        args: vec![],
        with_hints: vec![],
    }
}

fn select(projection: Vec<SelectItem>, from: Vec<TableWithJoins>, selection: Option<Expr>) -> Box<Query> {
    Box::new(Query {
        with: None,
        body: SetExpr::Select(Box::new(Select {
            distinct: false,
            top: None,
            projection,
            from,
            lateral_views: vec![],
            selection,
            group_by: vec![],
            cluster_by: vec![],
            distribute_by: vec![],
            sort_by: vec![],
            having: None,
        })),
        order_by: vec![],
        limit: None,
        offset: None,
        fetch: None,
    })
}

fn sample_query() -> Box<Query> {
    let mut q = select(
        vec![
            SelectItem::ExprWithAlias { expr: col("a"), alias: Ident::new("x") },
            SelectItem::UnnamedExpr(Expr::Function(Function {
                name: object(&["count"]),
                args: vec![FunctionArg::Unnamed(col("b"))],
                over: None,
                distinct: false,
            })),
        ],
        vec![TableWithJoins {
            relation: table("orders", Some("o")),
            joins: vec![Join {
                relation: table("owners", None),
                join_operator: JoinOperator::Inner(JoinConstraint::On(Expr::BinaryOp {
                    left: Box::new(col("k1")),
                    op: BinaryOperator::Eq,
                    right: Box::new(col("k2")),
                })),
            }],
        }],
        Some(Expr::InSubquery {
            expr: Box::new(col("c")),
            subquery: select(vec![SelectItem::UnnamedExpr(col("d"))], vec![], None),
            negated: false,
        }),
    );
    q.order_by = vec![OrderByExpr { expr: col("e"), asc: None, nulls_first: None }];
    q.limit = Some(num("10"));
    q
}

fn sample_table() -> Statement {
    Statement::CreateTable {
        or_replace: false,
        temporary: false,
        external: false,
        if_not_exists: false,
        name: object(&["shop", "orders"]),
        columns: vec![
            ColumnDef { name: Ident::new("id"), data_type: DataType::Int, collation: None, options: vec![] },
            ColumnDef {
                name: Ident::new("owner"),
                data_type: DataType::Int,
                collation: None,
                options: vec![ColumnOptionDef {
                    name: None,
                    option: ColumnOption::ForeignKey {
                        foreign_table: object(&["owners"]),
                        referred_columns: idents(&["id"]),
                        on_delete: None,
                        on_update: None,
                    },
                }],
            },
        ],
        constraints: vec![TableConstraint::Unique {
            name: Some(Ident::new("skipped")),
            columns: idents(&["id", "owner"]),
            is_primary: true,
        }],
        hive_distribution: HiveDistributionStyle::CLUSTERED {
            columns: idents(&["bucket"]),
            sorted_by: vec![],
            num_buckets: 2,
        },
        hive_formats: None,
        table_properties: vec![SqlOption { name: Ident::new("property"), value: Value::Null }],
        with_options: vec![],
        file_format: None,
        location: None,
        query: Some(select(vec![SelectItem::UnnamedExpr(col("inner"))], vec![], None)),
        without_rowid: false,
        like: Some(object(&["template"])),
    }
}

#[test]
fn a_query_hands_over_its_leaves_in_the_order_of_its_text() {
    let mut log = Log::new();
    assert_eq!(sample_query().analyse(&mut log), Ok(()));
    assert_eq!(
        log.get().lines,
        vec![
            "name a",
            "name x",
            "object count",
            "name b",
            "object orders",
            "name o",
            "object owners",
            "name k1",
            "name k2",
            "name c",
            "name d",
            "name e",
            "value Number(\"10\", false)",
        ]
    );
}

#[test]
fn a_marked_leaf_fails_the_statement_and_no_later_leaf_is_visited() {
    let statement = Statement::Query(sample_query());
    let mut log = Log::failing_on("object owners");
    assert_eq!(
        statement.analyse(&mut log),
        Err(AnalyseError { reason: "object owners".to_string() })
    );
    assert_eq!(
        log.get().lines,
        vec!["name a", "name x", "object count", "name b", "object orders", "name o", "object owners"]
    );
    let mut first = Log::failing_on("name a");
    assert!(statement.analyse(&mut first).is_err());
    assert_eq!(first.get().lines, vec!["name a"]);
    let mut last = Log::failing_on("value Number(\"10\", false)");
    assert!(statement.analyse(&mut last).is_err());
    assert_eq!(last.get().lines.len(), 13);
    let mut deep = Log::failing_on("name d");
    assert!(statement.analyse(&mut deep).is_err());
    assert_eq!(deep.get().lines.last().map(String::as_str), Some("name d"));
    assert_eq!(deep.get().lines.len(), 11);
}

#[test]
fn an_expression_hands_over_names_types_and_values() {
    let e = Expr::Case {
        operand: Some(Box::new(col("op"))),
        conditions: vec![num("1"), num("2"), num("3")],
        results: vec![col("r1"), col("r2")],
        else_result: Some(Box::new(Expr::Cast {
            expr: Box::new(col("z")),
            data_type: DataType::Text,
        })),
    };
    let mut log = Log::new();
    assert_eq!(e.analyse(&mut log), Ok(()));
    assert_eq!(
        log.get().lines,
        vec![
            "name op",
            "value Number(\"1\", false)",
            "name r1",
            "value Number(\"2\", false)",
            "name r2",
            "name z",
            "type Text",
        ]
    );
    let mut none = Log::new();
    let hidden = Expr::TryCast { expr: Box::new(col("unwritten")), data_type: DataType::Int };
    assert_eq!(hidden.analyse(&mut none), Ok(()));
    assert_eq!(none.get().lines, Vec::<String>::new());
}

#[test]
fn a_column_definition_hands_over_its_name_type_and_options() {
    let column = ColumnDef {
        name: Ident::new("owner_id"),
        data_type: DataType::BigInt,
        collation: Some(object(&["skipped"])),
        options: vec![
            ColumnOptionDef { name: Some(Ident::new("constraint_name")), option: ColumnOption::NotNull },
            ColumnOptionDef { name: None, option: ColumnOption::Default(num("0")) },
            ColumnOptionDef {
                name: None,
                option: ColumnOption::ForeignKey {
                    foreign_table: object(&["shop", "owners"]),
                    referred_columns: idents(&["id"]),
                    on_delete: Some(ReferentialAction::Cascade),
                    on_update: None,
                },
            },
            ColumnOptionDef {
                name: None,
                option: ColumnOption::DialectSpecific(vec![Token::Comma]),
            },
        ],
    };
    let mut log = Log::new();
    assert_eq!(column.analyse(&mut log), Ok(()));
    assert_eq!(
        log.get().lines,
        vec![
            "name owner_id",
            "type BigInt",
            "value Number(\"0\", false)",
            "object shop.owners",
            "name id",
            "token Comma",
        ]
    );
    let mut collector = collecting();
    assert_eq!(column.analyse(&mut collector), Ok(()));
    assert_eq!(names(&collector), vec!["owner_id", "shop", "owners", "id"]);
    assert!(!collector.has_failed());
}

#[test]
fn a_refused_name_stops_the_walk_before_later_siblings() {
    let constraint = TableConstraint::ForeignKey {
        name: None,
        columns: idents(&["a", "b"]),
        foreign_table: object(&["other"]),
        referred_columns: idents(&["x", "y"]),
    };
    let mut collector = denied("other");
    assert_eq!(constraint.analyse(&mut collector), refusal("other"));
    assert_eq!(names(&collector), vec!["a", "b"]);
    assert!(collector.has_failed());

    let mut early = denied("a");
    assert_eq!(constraint.analyse(&mut early), refusal("a"));
    assert_eq!(names(&early), Vec::<String>::new());

    let mut late = denied("y");
    assert_eq!(constraint.analyse(&mut late), refusal("y"));
    assert_eq!(names(&late), vec!["a", "b", "other", "x"]);

    let mut never = denied("absent");
    assert_eq!(constraint.analyse(&mut never), Ok(()));
    assert_eq!(names(&never), vec!["a", "b", "other", "x", "y"]);
}

#[test]
fn a_failure_inside_a_column_fails_the_enclosing_operation() {
    let operation = AlterTableOperation::AddColumn {
        column_def: ColumnDef {
            name: Ident::new("c"),
            data_type: DataType::Int,
            collation: None,
            options: vec![
                ColumnOptionDef {
                    name: None,
                    option: ColumnOption::ForeignKey {
                        foreign_table: object(&["s", "secret", "t"]),
                        referred_columns: idents(&["k"]),
                        on_delete: None,
                        on_update: None,
                    },
                },
                ColumnOptionDef {
                    name: None,
                    option: ColumnOption::ForeignKey {
                        foreign_table: object(&["later"]),
                        referred_columns: vec![],
                        on_delete: None,
                        on_update: None,
                    },
                },
            ],
        },
    };
    let mut collector = denied("secret");
    assert_eq!(operation.analyse(&mut collector), refusal("secret"));
    assert_eq!(names(&collector), vec!["c", "s"]);
}

#[test]
fn alter_table_operations_hand_over_what_they_name() {
    let cases: Vec<(AlterTableOperation, Vec<&str>)> = vec![
        (
            AlterTableOperation::AddPartitions { if_not_exists: false, new_partitions: vec![col("p")] },
            vec!["name p"],
        ),
        (
            AlterTableOperation::DropPartitions { partitions: vec![Expr::Wildcard], if_exists: true },
            vec![],
        ),
        (
            AlterTableOperation::RenamePartitions {
                old_partitions: vec![col("o1"), col("o2")],
                new_partitions: vec![col("n1")],
            },
            vec!["name o1", "name o2", "name n1"],
        ),
        (AlterTableOperation::DropConstraint { name: Ident::new("c") }, vec!["name c"]),
        (
            AlterTableOperation::DropColumn { column_name: Ident::new("d"), if_exists: false, cascade: false },
            vec!["name d"],
        ),
        (
            AlterTableOperation::AddConstraint(TableConstraint::Unique {
                name: Some(Ident::new("skipped")),
                columns: idents(&["u", "v"]),
                is_primary: false,
            }),
            vec!["name u", "name v"],
        ),
        (
            AlterTableOperation::AddConstraint(TableConstraint::Check {
                name: Some(Ident::new("skipped")),
                expr: Box::new(col("inside")),
            }),
            vec!["name inside"],
        ),
        (
            AlterTableOperation::RenameColumn {
                old_column_name: Ident::new("old"),
                new_column_name: Ident::new("new"),
            },
            vec!["name old", "name new"],
        ),
        (AlterTableOperation::RenameTable { table_name: object(&["s", "t"]) }, vec!["object s.t"]),
    ];
    for (operation, expected) in cases {
        let mut log = Log::new();
        assert_eq!(operation.analyse(&mut log), Ok(()));
        assert_eq!(log.get().lines, expected);
    }
}

#[test]
fn options_without_names_hand_over_nothing() {
    let options = vec![
        ColumnOption::Null,
        ColumnOption::NotNull,
        ColumnOption::Unique { is_primary: true },
        ColumnOption::DialectSpecific(vec![
            Token::Word(Word { value: "AUTO_INCREMENT".to_string(), quote_style: None }),
            Token::Comma,
        ]),
    ];
    let mut collector = denied("AUTO_INCREMENT");
    assert_eq!(analyse_all(&options, &mut collector), Ok(()));
    assert_eq!(names(&collector), Vec::<String>::new());
    assert_eq!(ReferentialAction::SetNull.analyse(&mut collector), Ok(()));
    assert_eq!(DataType::Int.analyse(&mut collector), Ok(()));
    assert_eq!(Value::Null.analyse(&mut collector), Ok(()));
    assert!(!collector.has_failed());
}

#[test]
fn constraint_names_are_passed_over() {
    let name = Some(Ident::new("fk_orders"));
    let mut collector = denied("fk_orders");
    assert_eq!(display_constraint_name(&name).analyse(&mut collector), Ok(()));
    assert_eq!(names(&collector), Vec::<String>::new());
}

#[test]
fn a_list_is_walked_in_order_up_to_the_refused_item() {
    let list = idents(&["a", "b", "c", "d"]);
    let mut collector = denied("c");
    assert_eq!(analyse_all(&list, &mut collector), refusal("c"));
    assert_eq!(names(&collector), vec!["a", "b"]);
    let mut all = collecting();
    assert_eq!(analyse_all(&list, &mut all), Ok(()));
    assert_eq!(names(&all), vec!["a", "b", "c", "d"]);
    let empty: Vec<Ident> = vec![];
    assert_eq!(analyse_all(&empty, &mut all), Ok(()));
    assert_eq!(names(&all), vec!["a", "b", "c", "d"]);
}

#[test]
fn a_statement_hands_over_its_leaves_in_the_order_of_its_text() {
    let mut log = Log::new();
    assert_eq!(sample_table().analyse(&mut log), Ok(()));
    assert_eq!(
        log.get().lines,
        vec![
            "object shop.orders",
            "name id",
            "type Int",
            "name owner",
            "type Int",
            "object owners",
            "name id",
            "name id",
            "name owner",
            "object template",
            "name bucket",
            "name property",
            "value Null",
            "name inner",
        ]
    );
}

#[test]
fn a_failure_on_a_part_fails_the_statement_and_skips_what_follows() {
    let mut collector = denied("owners");
    assert_eq!(sample_table().analyse(&mut collector), refusal("owners"));
    assert_eq!(names(&collector), vec!["shop", "orders", "id", "owner"]);
    assert!(collector.has_failed());
    let mut first = denied("shop");
    assert_eq!(sample_table().analyse(&mut first), refusal("shop"));
    assert_eq!(names(&first), Vec::<String>::new());
    let mut last = denied("inner");
    assert_eq!(sample_table().analyse(&mut last), refusal("inner"));
    assert_eq!(names(&last).len(), 11);
}

#[test]
fn statements_of_every_family_are_walked() {
    let cases: Vec<(Statement, Vec<&str>)> = vec![
        (Statement::Commit { chain: true }, vec![]),
        (
            Statement::Explain {
                analyze: false,
                verbose: false,
                statement: Box::new(Statement::Delete {
                    table_name: object(&["t"]),
                    selection: Some(col("gone")),
                }),
            },
            vec!["object t", "name gone"],
        ),
        (
            Statement::Update {
                table_name: object(&["t"]),
                assignments: vec![
                    Assignment { id: Ident::new("a"), value: num("1") },
                    Assignment { id: Ident::new("b"), value: col("c") },
                ],
                selection: Some(Expr::Wildcard),
                limit: Some(num("5")),
            },
            vec![
                "object t",
                "name a",
                "value Number(\"1\", false)",
                "name b",
                "name c",
                "value Number(\"5\", false)",
            ],
        ),
        (
            Statement::Insert {
                or: None,
                table_name: object(&["t"]),
                columns: idents(&["a"]),
                overwrite: false,
                source: select(vec![SelectItem::UnnamedExpr(col("s"))], vec![], None),
                partitioned: Some(vec![col("p")]),
                after_columns: idents(&["b"]),
                table: false,
            },
            vec!["object t", "name a", "name p", "name b", "name s"],
        ),
        (
            Statement::Drop {
                object_type: ObjectType::Table,
                if_exists: false,
                names: vec![object(&["a"]), object(&["s", "b"])],
                cascade: false,
                purge: false,
            },
            vec!["object a", "object s.b"],
        ),
        (
            Statement::SetVariable {
                local: false,
                hivevar: false,
                variable: Ident::new("v"),
                value: vec![
                    SetVariableValue::Literal(Value::Null),
                    SetVariableValue::Ident(Ident::new("on")),
                ],
            },
            vec!["name v", "value Null", "name on"],
        ),
        (
            Statement::Analyze {
                table_name: object(&["t"]),
                partitions: None,
                for_columns: false,
                columns: idents(&["unwritten"]),
                cache_metadata: false,
                noscan: false,
                compute_statistics: false,
            },
            vec!["object t"],
        ),
        (
            Statement::Prepare {
                name: Ident::new("p"),
                data_types: vec![DataType::Int, DataType::Text],
                statement: Box::new(Statement::Savepoint { variable: Ident::new("sp") }),
            },
            vec!["name p", "type Int", "type Text", "name sp"],
        ),
        (
            Statement::AlterTable {
                name: object(&["t"]),
                operation: AlterTableOperation::RenameColumn {
                    old_column_name: Ident::new("a"),
                    new_column_name: Ident::new("b"),
                },
            },
            vec!["object t", "name a", "name b"],
        ),
        (
            Statement::Rollback { chain: false, savepoint: Some(Ident::new("sp")) },
            vec!["name sp"],
        ),
    ];
    for (statement, expected) in cases {
        let mut log = Log::new();
        assert_eq!(statement.analyse(&mut log), Ok(()));
        assert_eq!(log.get().lines, expected);
    }
}

#[test]
fn after_a_failure_nothing_more_is_handed_over() {
    let mut log = Log::failing_on("name b");
    let first = idents(&["a", "b", "c"]);
    assert!(analyse_all(&first, &mut log).is_err());
    assert!(log.has_failed());
    assert_eq!(log.get().lines, vec!["name a", "name b"]);
    let again = Statement::Savepoint { variable: Ident::new("later") };
    assert_eq!(again.analyse(&mut log), Err(AnalyseError { reason: "name b".to_string() }));
    assert_eq!(Ident::new("z").analyse(&mut log), Err(AnalyseError { reason: "name b".to_string() }));
    assert_eq!(log.result(), Err(AnalyseError { reason: "name b".to_string() }));
    assert_eq!(log.into_inner().lines, vec!["name a", "name b"]);
    let fresh = Log::new();
    assert_eq!(fresh.result(), Ok(()));
    assert!(!fresh.has_failed());
}

#[test]
fn an_option_without_leaves_leaves_the_accumulator_as_it_was() {
    let options = [
        ColumnOption::Null,
        ColumnOption::NotNull,
        ColumnOption::Unique { is_primary: false },
    ];
    for option in options {
        let mut log = Log::failing_on("name never");
        assert_eq!(Ident::new("before").analyse(&mut log), Ok(()));
        assert_eq!(option.analyse(&mut log), Ok(()));
        assert!(!log.has_failed());
        assert_eq!(log.get().lines, vec!["name before"]);
        assert_eq!(log.get().marked, Some("name never".to_string()));
    }
}
