use martlet_proxy::context::RenderContext;
use martlet_proxy::data_type::DataType;
use martlet_proxy::ddl::{
    AlterTableOperation, ColumnDef, ColumnOption, ColumnOptionDef, ReferentialAction,
    TableConstraint,
};
use martlet_proxy::expr::Expr;
use martlet_proxy::ident::{Ident, ObjectName};
use martlet_proxy::query::{Query, Select, SelectItem, SetExpr};
use martlet_proxy::rewrite::SQLReWrite;
use martlet_proxy::statement::{
    FileFormat, HiveDistributionStyle, HiveFormat, HiveIOFormat, HiveRowFormat, SqlOption,
    Statement,
};
use martlet_proxy::tokenizer::{Token, Word};
use martlet_proxy::value::Value;

fn text<T: SQLReWrite>(node: &T) -> String {
    let mut out = String::new();
    node.rewrite(&mut out, &RenderContext::new()).unwrap();
    out
}

fn col(s: &str) -> Expr {
    Expr::Identifier(Ident::new(s))
}

fn name(parts: &[&str]) -> ObjectName {
    ObjectName(parts.iter().map(|p| Ident::new(p)).collect())
}

fn column(n: &str, data_type: DataType) -> ColumnDef {
    ColumnDef { name: Ident::new(n), data_type, collation: None, options: vec![] }
}

fn select_one() -> Box<Query> {
    Box::new(Query {
        with: None,
        body: SetExpr::Select(Box::new(Select {
            distinct: false,
            top: None,
            projection: vec![SelectItem::UnnamedExpr(Expr::Value(Value::Number(
                "1".to_string(),
                false,
            )))],
            from: vec![],
            lateral_views: vec![],
            selection: None,
            group_by: vec![],
            cluster_by: vec![],
            distribute_by: vec![],
            sort_by: vec![],
            having: None,
        })),
        order_by: vec![],
        limit: None,
        offset: None,
        fetch: None,
    })
}

struct Table {
    or_replace: bool,
    external: bool,
    if_not_exists: bool,
    columns: Vec<ColumnDef>,
    constraints: Vec<TableConstraint>,
    hive_distribution: HiveDistributionStyle,
    hive_formats: Option<HiveFormat>,
    table_properties: Vec<SqlOption>,
    with_options: Vec<SqlOption>,
    file_format: Option<FileFormat>,
    location: Option<String>,
    query: Option<Box<Query>>,
    without_rowid: bool,
    like: Option<ObjectName>,
}

fn bare() -> Table {
    Table {
        or_replace: false,
        external: false,
        if_not_exists: false,
        columns: vec![],
        constraints: vec![],
        hive_distribution: HiveDistributionStyle::NONE,
        hive_formats: None,
        table_properties: vec![],
        with_options: vec![],
        file_format: None,
        location: None,
        query: None,
        without_rowid: false,
        like: None,
    }
}

fn create(t: Table) -> String {
    text(&Statement::CreateTable {
        or_replace: t.or_replace,
        temporary: false,
        external: t.external,
        if_not_exists: t.if_not_exists,
        name: name(&["t"]),
        columns: t.columns,
        constraints: t.constraints,
        hive_distribution: t.hive_distribution,
        hive_formats: t.hive_formats,
        table_properties: t.table_properties,
        with_options: t.with_options,
        file_format: t.file_format,
        location: t.location,
        query: t.query,
        without_rowid: t.without_rowid,
        like: t.like,
    })
}

fn option(k: &str, v: &str) -> SqlOption {
    SqlOption { name: Ident::new(k), value: Value::SingleQuotedString(v.to_string()) }
}

#[test]
fn empty_table_has_empty_parentheses_after_its_name() {
    assert_eq!(create(bare()), "CREATE TABLE t ()");
    let mut guarded = bare();
    guarded.or_replace = true;
    guarded.if_not_exists = true;
    guarded.without_rowid = true;
    assert_eq!(create(guarded), "CREATE OR REPLACE TABLE IF NOT EXISTS t () WITHOUT ROWID");
}

#[test]
fn table_from_a_query_has_no_parentheses() {
    let mut t = bare();
    t.query = Some(select_one());
    assert_eq!(create(t), "CREATE TABLE t AS SELECT 1");
}

#[test]
fn columns_and_constraints_share_one_list() {
    let mut both = bare();
    both.columns = vec![column("a", DataType::Int), column("b", DataType::Text)];
    both.constraints = vec![TableConstraint::Unique {
        name: None,
        columns: vec![Ident::new("a")],
        is_primary: true,
    }];
    both.query = Some(select_one());
    assert_eq!(create(both), "CREATE TABLE t (a INT, b TEXT, PRIMARY KEY (a)) AS SELECT 1");
    let mut only_columns = bare();
    only_columns.columns = vec![column("a", DataType::Int)];
    assert_eq!(create(only_columns), "CREATE TABLE t (a INT)");
    let mut only_constraints = bare();
    only_constraints.constraints = vec![TableConstraint::Check {
        name: Some(Ident::new("positive")),
        expr: Box::new(col("ok")),
    }];
    assert_eq!(create(only_constraints), "CREATE TABLE t (CONSTRAINT positive CHECK (ok))");
}

#[test]
fn clauses_come_in_their_fixed_order() {
    let mut t = bare();
    t.columns = vec![column("a", DataType::Int)];
    t.without_rowid = true;
    t.like = Some(name(&["other"]));
    t.hive_distribution = HiveDistributionStyle::PARTITIONED { columns: vec![column("p", DataType::Date)] };
    t.hive_formats = Some(HiveFormat {
        row_format: Some(HiveRowFormat::DELIMITED),
        storage: Some(HiveIOFormat::FileFormat { format: FileFormat::PARQUET }),
        location: Some("/data".to_string()),
    });
    t.table_properties = vec![option("k", "v"), option("l", "w")];
    t.with_options = vec![option("o", "p")];
    t.query = Some(select_one());
    assert_eq!(
        create(t),
        "CREATE TABLE t (a INT) WITHOUT ROWID LIKE other PARTITIONED BY (p DATE) \
         ROW FORMAT DELIMITED STORED AS PARQUET LOCATION '/data' \
         TBLPROPERTIES (k = 'v', l = 'w') WITH (o = 'p') AS SELECT 1"
    );
}

#[test]
fn external_table_has_its_own_storage_clause() {
    let mut t = bare();
    t.external = true;
    t.columns = vec![column("a", DataType::Int)];
    t.hive_formats = Some(HiveFormat {
        row_format: Some(HiveRowFormat::SERDE { class: "org.Serde".to_string() }),
        storage: Some(HiveIOFormat::FileFormat { format: FileFormat::PARQUET }),
        location: Some("/ignored".to_string()),
    });
    t.file_format = Some(FileFormat::AVRO);
    t.location = Some("/ext".to_string());
    assert_eq!(
        create(t),
        "CREATE EXTERNAL TABLE t (a INT) ROW FORMAT SERDE 'org.Serde' STORED AS AVRO LOCATION '/ext'"
    );
}

#[test]
fn input_and_output_formats_are_written_for_external_tables_too() {
    let mut t = bare();
    t.external = true;
    t.columns = vec![column("a", DataType::Int)];
    t.hive_formats = Some(HiveFormat {
        row_format: None,
        storage: Some(HiveIOFormat::IOF { input_format: col("i"), output_format: col("o") }),
        location: None,
    });
    t.file_format = Some(FileFormat::TEXTFILE);
    t.location = Some("/ext".to_string());
    assert_eq!(
        create(t),
        "CREATE EXTERNAL TABLE t (a INT) STORED AS INPUTFORMAT i OUTPUTFORMAT o \
         STORED AS TEXTFILE LOCATION '/ext'"
    );
}

#[test]
fn hive_distributions() {
    let mut clustered = bare();
    clustered.columns = vec![column("a", DataType::Int)];
    clustered.hive_distribution = HiveDistributionStyle::CLUSTERED {
        columns: vec![Ident::new("a"), Ident::new("b")],
        sorted_by: vec![column("a", DataType::Int)],
        num_buckets: 4,
    };
    assert_eq!(
        create(clustered),
        "CREATE TABLE t (a INT) CLUSTERED BY (a, b) SORTED BY (a INT) INTO 4 BUCKETS"
    );
    let mut unsorted = bare();
    unsorted.columns = vec![column("a", DataType::Int)];
    unsorted.hive_distribution = HiveDistributionStyle::CLUSTERED {
        columns: vec![Ident::new("a")],
        sorted_by: vec![],
        num_buckets: 0,
    };
    assert_eq!(create(unsorted), "CREATE TABLE t (a INT) CLUSTERED BY (a)");
    let mut negative = bare();
    negative.columns = vec![column("a", DataType::Int)];
    negative.hive_distribution = HiveDistributionStyle::CLUSTERED {
        columns: vec![Ident::new("a")],
        sorted_by: vec![],
        num_buckets: -3,
    };
    assert_eq!(create(negative), "CREATE TABLE t (a INT) CLUSTERED BY (a)");
    let mut most = bare();
    most.columns = vec![column("a", DataType::Int)];
    most.hive_distribution = HiveDistributionStyle::CLUSTERED {
        columns: vec![Ident::new("a")],
        sorted_by: vec![],
        num_buckets: 2147483647,
    };
    assert_eq!(create(most), "CREATE TABLE t (a INT) CLUSTERED BY (a) INTO 2147483647 BUCKETS");
    let mut skewed = bare();
    skewed.columns = vec![column("a", DataType::Int)];
    skewed.hive_distribution = HiveDistributionStyle::SKEWED {
        columns: vec![column("a", DataType::Int)],
        on: vec![column("b", DataType::Int)],
        stored_as_directories: true,
    };
    assert_eq!(
        create(skewed),
        "CREATE TABLE t (a INT) SKEWED BY (a INT) ON (b INT) STORED AS DIRECTORIES"
    );
}

#[test]
fn column_definitions_with_options() {
    let c = ColumnDef {
        name: Ident::new("id"),
        data_type: DataType::BigInt,
        collation: Some(name(&["ignored"])),
        options: vec![
            ColumnOptionDef { name: None, option: ColumnOption::NotNull },
            ColumnOptionDef {
                name: Some(Ident::new("pk")),
                option: ColumnOption::Unique { is_primary: true },
            },
            ColumnOptionDef { name: None, option: ColumnOption::Default(col("d")) },
        ],
    };
    assert_eq!(text(&c), "id BIGINT NOT NULL CONSTRAINT pk PRIMARY KEY DEFAULT d");
    assert_eq!(text(&column("a", DataType::Int)), "a INT");
}

#[test]
fn column_options() {
    assert_eq!(text(&ColumnOption::Null), "NULL");
    assert_eq!(text(&ColumnOption::NotNull), "NOT NULL");
    assert_eq!(text(&ColumnOption::Unique { is_primary: false }), "UNIQUE");
    assert_eq!(text(&ColumnOption::Unique { is_primary: true }), "PRIMARY KEY");
    assert_eq!(text(&ColumnOption::Check(col("c"))), "CHECK (c)");
    let full = ColumnOption::ForeignKey {
        foreign_table: name(&["s", "t"]),
        referred_columns: vec![Ident::new("a"), Ident::new("b")],
        on_delete: Some(ReferentialAction::Cascade),
        on_update: Some(ReferentialAction::SetNull),
    };
    assert_eq!(text(&full), "REFERENCES s.t (a, b) ON DELETE CASCADE ON UPDATE SET NULL");
    let bare = ColumnOption::ForeignKey {
        foreign_table: name(&["t"]),
        referred_columns: vec![],
        on_delete: None,
        on_update: None,
    };
    assert_eq!(text(&bare), "REFERENCES t");
    let raw = ColumnOption::DialectSpecific(vec![
        Token::Word(Word { value: "AUTO_INCREMENT".to_string(), quote_style: None }),
        Token::Eq,
        Token::Number("5".to_string(), false),
    ]);
    assert_eq!(text(&raw), "AUTO_INCREMENT = 5");
    assert_eq!(text(&ColumnOption::DialectSpecific(vec![])), "");
}

#[test]
fn referential_actions() {
    assert_eq!(text(&ReferentialAction::Restrict), "RESTRICT");
    assert_eq!(text(&ReferentialAction::Cascade), "CASCADE");
    assert_eq!(text(&ReferentialAction::SetNull), "SET NULL");
    assert_eq!(text(&ReferentialAction::NoAction), "NO ACTION");
    assert_eq!(text(&ReferentialAction::SetDefault), "SET DEFAULT");
}

#[test]
fn table_constraints() {
    let unique = TableConstraint::Unique {
        name: Some(Ident::new("u")),
        columns: vec![Ident::new("a"), Ident::new("b")],
        is_primary: false,
    };
    assert_eq!(text(&unique), "CONSTRAINT u UNIQUE (a, b)");
    let foreign = TableConstraint::ForeignKey {
        name: None,
        columns: vec![Ident::new("a")],
        foreign_table: name(&["o"]),
        referred_columns: vec![Ident::new("x")],
    };
    assert_eq!(text(&foreign), "FOREIGN KEY (a) REFERENCES o(x)");
    let check = TableConstraint::Check { name: None, expr: Box::new(col("c")) };
    assert_eq!(text(&check), "CHECK (c)");
}

#[test]
fn alter_table_operations() {
    let cases: Vec<(AlterTableOperation, &str)> = vec![
        (
            AlterTableOperation::AddPartitions { if_not_exists: true, new_partitions: vec![col("p"), col("q")] },
            "ADD IF NOT EXISTS PARTITION (p, q)",
        ),
        (
            AlterTableOperation::AddPartitions { if_not_exists: false, new_partitions: vec![] },
            "ADD PARTITION ()",
        ),
        (
            AlterTableOperation::AddConstraint(TableConstraint::Check { name: None, expr: Box::new(col("c")) }),
            "ADD CHECK (c)",
        ),
        (
            AlterTableOperation::AddColumn { column_def: column("a", DataType::Int) },
            "ADD COLUMN a INT",
        ),
        (
            AlterTableOperation::DropPartitions { partitions: vec![col("p")], if_exists: true },
            "DROP IF EXISTS PARTITION (p)",
        ),
        (
            AlterTableOperation::DropConstraint { name: Ident::new("c") },
            "DROP CONSTRAINT c",
        ),
        (
            AlterTableOperation::DropColumn { column_name: Ident::new("a"), if_exists: true, cascade: true },
            "DROP COLUMN IF EXISTS a CASCADE",
        ),
        (
            AlterTableOperation::DropColumn { column_name: Ident::new("a"), if_exists: false, cascade: false },
            "DROP COLUMN a",
        ),
        (
            AlterTableOperation::RenamePartitions { old_partitions: vec![col("p")], new_partitions: vec![col("q")] },
            "PARTITION (p) RENAME TO PARTITION (q)",
        ),
        (
            AlterTableOperation::RenameColumn { old_column_name: Ident::new("a"), new_column_name: Ident::new("b") },
            "RENAME COLUMN a TO b",
        ),
        (
            AlterTableOperation::RenameTable { table_name: name(&["s", "u"]) },
            "RENAME TO s.u",
        ),
    ];
    for (operation, expected) in cases {
        assert_eq!(text(&operation), expected);
    }
    let stmt = Statement::AlterTable {
        name: name(&["t"]),
        operation: AlterTableOperation::RenameTable { table_name: name(&["u"]) },
    };
    assert_eq!(text(&stmt), "ALTER TABLE t RENAME TO u");
}
