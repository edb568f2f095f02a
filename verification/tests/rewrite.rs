use martlet_proxy::context::RenderContext;
use martlet_proxy::data_type::DataType;
use martlet_proxy::expr::{Expr, Function, FunctionArg};
use martlet_proxy::ident::{Ident, ObjectName};
use martlet_proxy::operator::BinaryOperator;
use martlet_proxy::query::{
    OrderByExpr, Query, Select, SelectItem, SetExpr, TableFactor, TableWithJoins,
};
use martlet_proxy::rewrite::{display_comma_separated, display_separated, SQLReWrite};
use martlet_proxy::statement::{
    AddDropSync, Assignment, FileFormat, ObjectType, SetVariableValue, ShowStatementFilter,
    SqlOption, SqliteOnConflict, Statement, TransactionAccessMode, TransactionIsolationLevel,
    TransactionMode,
};
use martlet_proxy::value::Value;

fn render(stmt: &Statement) -> String {
    let mut out = String::new();
    let ctx = RenderContext::new();
    stmt.rewrite(&mut out, &ctx).unwrap();
    out
}

fn name(parts: &[&str]) -> ObjectName {
    ObjectName(parts.iter().map(|p| Ident::new(p)).collect())
}

fn col(s: &str) -> Expr {
    Expr::Identifier(Ident::new(s))
}

fn num(s: &str) -> Expr {
    Expr::Value(Value::Number(s.to_string(), false))
}

fn table(parts: &[&str]) -> TableWithJoins {
    TableWithJoins {
        relation: TableFactor::Table {
            name: name(parts),
            alias: None,
            args: vec![],
            with_hints: vec![],
        },
        joins: vec![],
    }
}

fn select(projection: Vec<SelectItem>, from: Vec<TableWithJoins>, selection: Option<Expr>) -> Select {
    Select {
        distinct: false,
        top: None,
        projection,
        from,
        lateral_views: vec![],
        selection,
        group_by: vec![],
        cluster_by: vec![],
        distribute_by: vec![],
        sort_by: vec![],
        having: None,
    }
}

fn query(body: Select, order_by: Vec<OrderByExpr>) -> Query {
    Query {
        with: None,
        body: SetExpr::Select(Box::new(body)),
        order_by,
        limit: None,
        offset: None,
        fetch: None,
    }
}

fn select_one() -> Box<Query> {
    Box::new(query(select(vec![SelectItem::UnnamedExpr(num("1"))], vec![], None), vec![]))
}

#[test]
fn test_rewrite() {
    let sql = "SELECT a, b, 123, myfunc(b) \
           FROM table_1 \
           WHERE a > b AND b < 100 \
           ORDER BY a DESC, b";
    assert!(!sql.is_empty());
    let sql = "SET NAMES utf8mb4";
    assert!(!sql.is_empty());
    let sql = "show variables like 'aurora_version'";
    let stmt = Statement::ShowVariable {
        variable: vec![
            Ident::new("variables"),
            Ident::new("like"),
            Ident::with_quote('\'', "aurora_version"),
        ],
    };
    let mut resql = String::new();
    let ctx = RenderContext::new();
    stmt.rewrite(&mut resql, &ctx).unwrap();
    assert_eq!(sql.to_uppercase(), resql.to_uppercase());
}

#[test]
fn set_names_renders_as_written() {
    let sql = "SET NAMES utf8mb4";
    let stmt = Statement::SetNames { variable: Ident::new("utf8mb4") };
    assert_eq!(render(&stmt), sql);
}

#[test]
fn show_variables_keeps_the_quoted_pattern() {
    let stmt = Statement::ShowVariable {
        variable: vec![
            Ident::new("variables"),
            Ident::new("like"),
            Ident::with_quote('\'', "aurora_version"),
        ],
    };
    assert_eq!(render(&stmt), "SHOW variables like 'aurora_version'");
}

#[test]
fn show_without_variable_is_the_keyword_and_a_space() {
    let stmt = Statement::ShowVariable { variable: vec![] };
    assert_eq!(render(&stmt), "SHOW ");
}

#[test]
fn select_with_function_filter_and_order() {
    let selection = Expr::BinaryOp {
        left: Box::new(Expr::BinaryOp {
            left: Box::new(col("a")),
            op: BinaryOperator::Gt,
            right: Box::new(col("b")),
        }),
        op: BinaryOperator::And,
        right: Box::new(Expr::BinaryOp {
            left: Box::new(col("b")),
            op: BinaryOperator::Lt,
            right: Box::new(num("100")),
        }),
    };
    let projection = vec![
        SelectItem::UnnamedExpr(col("a")),
        SelectItem::UnnamedExpr(col("b")),
        SelectItem::UnnamedExpr(num("123")),
        SelectItem::UnnamedExpr(Expr::Function(Function {
            name: name(&["myfunc"]),
            args: vec![FunctionArg::Unnamed(col("b"))],
            over: None,
            distinct: false,
        })),
    ];
    let order_by = vec![
        OrderByExpr { expr: col("a"), asc: Some(false), nulls_first: None },
        OrderByExpr { expr: col("b"), asc: None, nulls_first: None },
    ];
    let stmt = Statement::Query(Box::new(query(
        select(projection, vec![table(&["table_1"])], Some(selection)),
        order_by,
    )));
    assert_eq!(
        render(&stmt),
        "SELECT a, b, 123, myfunc(b) FROM table_1 WHERE a > b AND b < 100 ORDER BY a DESC, b"
    );
}

#[test]
fn explain_puts_its_flags_before_the_statement() {
    let stmt = Statement::Explain {
        analyze: true,
        verbose: true,
        statement: Box::new(Statement::Query(select_one())),
    };
    assert_eq!(render(&stmt), "EXPLAIN ANALYZE VERBOSE SELECT 1");
    let plain = Statement::Explain {
        analyze: false,
        verbose: false,
        statement: Box::new(Statement::Commit { chain: false }),
    };
    assert_eq!(render(&plain), "EXPLAIN COMMIT");
}

#[test]
fn directory_insert_in_its_forms() {
    let stmt = Statement::Directory {
        overwrite: true,
        local: true,
        path: "/tmp/out".to_string(),
        file_format: Some(FileFormat::ORC),
        source: select_one(),
    };
    assert_eq!(render(&stmt), "INSERT OVERWRITE LOCAL DIRECTORY '/tmp/out' STORED AS ORC SELECT 1");
    let bare = Statement::Directory {
        overwrite: false,
        local: false,
        path: "d".to_string(),
        file_format: None,
        source: select_one(),
    };
    assert_eq!(render(&bare), "INSERT DIRECTORY 'd' SELECT 1");
}

#[test]
fn msck_with_and_without_partition_action() {
    let stmt = Statement::Msck {
        table_name: name(&["db", "t"]),
        repair: true,
        partition_action: Some(AddDropSync::SYNC),
    };
    assert_eq!(render(&stmt), "MSCK REPAIR TABLE db.t SYNC PARTITIONS");
    let add = Statement::Msck {
        table_name: name(&["t"]),
        repair: false,
        partition_action: Some(AddDropSync::ADD),
    };
    assert_eq!(render(&add), "MSCK TABLE t ADD PARTITIONS");
    let drop = Statement::Msck {
        table_name: name(&["t"]),
        repair: false,
        partition_action: Some(AddDropSync::DROP),
    };
    assert_eq!(render(&drop), "MSCK TABLE t DROP PARTITIONS");
    let none = Statement::Msck { table_name: name(&["t"]), repair: false, partition_action: None };
    assert_eq!(render(&none), "MSCK TABLE t");
}

#[test]
fn truncate_omits_an_empty_partition_list() {
    let with = Statement::Truncate {
        table_name: name(&["t"]),
        partitions: Some(vec![col("p1"), col("p2")]),
    };
    assert_eq!(render(&with), "TRUNCATE TABLE t PARTITION (p1, p2)");
    let empty = Statement::Truncate { table_name: name(&["t"]), partitions: Some(vec![]) };
    assert_eq!(render(&empty), "TRUNCATE TABLE t");
    let none = Statement::Truncate { table_name: name(&["t"]), partitions: None };
    assert_eq!(render(&none), "TRUNCATE TABLE t");
}

#[test]
fn analyze_writes_its_clauses_in_fixed_order() {
    let stmt = Statement::Analyze {
        table_name: name(&["t"]),
        partitions: Some(vec![col("p")]),
        for_columns: true,
        columns: vec![Ident::new("a"), Ident::new("b")],
        cache_metadata: true,
        noscan: true,
        compute_statistics: true,
    };
    assert_eq!(
        render(&stmt),
        "ANALYZE TABLE t PARTITION (p) COMPUTE STATISTICS NOSCAN CACHE METADATA FOR COLUMNS a, b"
    );
    let bare = Statement::Analyze {
        table_name: name(&["t"]),
        partitions: None,
        for_columns: true,
        columns: vec![],
        cache_metadata: false,
        noscan: false,
        compute_statistics: false,
    };
    assert_eq!(render(&bare), "ANALYZE TABLE t FOR COLUMNS");
    let hidden = Statement::Analyze {
        table_name: name(&["t"]),
        partitions: None,
        for_columns: false,
        columns: vec![Ident::new("a")],
        cache_metadata: false,
        noscan: false,
        compute_statistics: false,
    };
    assert_eq!(render(&hidden), "ANALYZE TABLE t");
}

#[test]
fn insert_in_its_forms() {
    let plain = Statement::Insert {
        or: None,
        table_name: name(&["t"]),
        columns: vec![Ident::new("a"), Ident::new("b")],
        overwrite: false,
        source: select_one(),
        partitioned: None,
        after_columns: vec![],
        table: false,
    };
    assert_eq!(render(&plain), "INSERT INTO t (a, b) SELECT 1");
    let hive = Statement::Insert {
        or: None,
        table_name: name(&["t"]),
        columns: vec![],
        overwrite: true,
        source: select_one(),
        partitioned: Some(vec![col("p")]),
        after_columns: vec![Ident::new("c")],
        table: true,
    };
    assert_eq!(render(&hive), "INSERT OVERWRITE TABLE t PARTITION (p) (c) SELECT 1");
    let sqlite = Statement::Insert {
        or: Some(SqliteOnConflict::Replace),
        table_name: name(&["t"]),
        columns: vec![],
        overwrite: true,
        source: select_one(),
        partitioned: Some(vec![]),
        after_columns: vec![],
        table: true,
    };
    assert_eq!(render(&sqlite), "INSERT OR REPLACE INTO t SELECT 1");
}

#[test]
fn every_conflict_action_has_its_keyword() {
    let cases = [
        (SqliteOnConflict::Rollback, "ROLLBACK"),
        (SqliteOnConflict::Abort, "ABORT"),
        (SqliteOnConflict::Fail, "FAIL"),
        (SqliteOnConflict::Ignore, "IGNORE"),
        (SqliteOnConflict::Replace, "REPLACE"),
    ];
    for (action, keyword) in cases {
        let mut out = String::new();
        action.rewrite(&mut out, &RenderContext::new()).unwrap();
        assert_eq!(out, keyword);
    }
}

#[test]
fn copy_writes_its_payload_tab_separated() {
    let stmt = Statement::Copy {
        table_name: name(&["t"]),
        columns: vec![Ident::new("a"), Ident::new("b")],
        values: vec![Some("1".to_string()), None, Some("x y".to_string())],
    };
    assert_eq!(render(&stmt), "COPY t (a, b) FROM stdin; \n1\t\\N\tx y\n\\.");
    let empty = Statement::Copy { table_name: name(&["t"]), columns: vec![], values: vec![] };
    assert_eq!(render(&empty), "COPY t FROM stdin; \n\\.");
}

#[test]
fn update_with_assignments_filter_and_limit() {
    let stmt = Statement::Update {
        table_name: name(&["t"]),
        assignments: vec![
            Assignment { id: Ident::new("a"), value: num("1") },
            Assignment { id: Ident::new("b"), value: col("c") },
        ],
        selection: Some(col("ok")),
        limit: Some(num("10")),
    };
    assert_eq!(render(&stmt), "UPDATE t SET a = 1, b = c WHERE ok LIMIT 10");
    let bare = Statement::Update {
        table_name: name(&["t"]),
        assignments: vec![],
        selection: None,
        limit: None,
    };
    assert_eq!(render(&bare), "UPDATE t");
}

#[test]
fn delete_with_and_without_filter() {
    let stmt = Statement::Delete { table_name: name(&["t"]), selection: Some(col("gone")) };
    assert_eq!(render(&stmt), "DELETE FROM t WHERE gone");
    let all = Statement::Delete { table_name: name(&["t"]), selection: None };
    assert_eq!(render(&all), "DELETE FROM t");
}

#[test]
fn create_database_with_and_without_guard() {
    let stmt = Statement::CreateDatabase {
        db_name: name(&["db"]),
        if_not_exists: true,
        location: Some("/l".to_string()),
        managed_location: Some("/m".to_string()),
    };
    assert_eq!(
        render(&stmt),
        "CREATE DATABASE IF NOT EXISTS db LOCATION '/l' MANAGEDLOCATION '/m'"
    );
    let bare = Statement::CreateDatabase {
        db_name: name(&["db"]),
        if_not_exists: false,
        location: None,
        managed_location: None,
    };
    assert_eq!(render(&bare), "CREATE DATABASE db");
}

#[test]
fn create_view_puts_columns_before_options() {
    let stmt = Statement::CreateView {
        or_replace: true,
        materialized: true,
        name: name(&["v"]),
        columns: vec![Ident::new("a")],
        query: select_one(),
        with_options: vec![SqlOption {
            name: Ident::new("k"),
            value: Value::SingleQuotedString("v".to_string()),
        }],
    };
    assert_eq!(render(&stmt), "CREATE OR REPLACE MATERIALIZED VIEW v (a) WITH (k = 'v') AS SELECT 1");
    let bare = Statement::CreateView {
        or_replace: false,
        materialized: false,
        name: name(&["v"]),
        columns: vec![],
        query: select_one(),
        with_options: vec![],
    };
    assert_eq!(render(&bare), "CREATE VIEW v AS SELECT 1");
}

#[test]
fn create_virtual_table_with_module_arguments() {
    let stmt = Statement::CreateVirtualTable {
        name: name(&["t"]),
        if_not_exists: true,
        module_name: Ident::new("fts5"),
        module_args: vec![Ident::new("a"), Ident::new("b")],
    };
    assert_eq!(render(&stmt), "CREATE VIRTUAL TABLE IF NOT EXISTS t USING fts5 (a, b)");
    let bare = Statement::CreateVirtualTable {
        name: name(&["t"]),
        if_not_exists: false,
        module_name: Ident::new("m"),
        module_args: vec![],
    };
    assert_eq!(render(&bare), "CREATE VIRTUAL TABLE t USING m");
}

#[test]
fn create_index_separates_columns_by_a_bare_comma() {
    let stmt = Statement::CreateIndex {
        name: name(&["idx"]),
        table_name: name(&["t"]),
        columns: vec![
            OrderByExpr { expr: col("a"), asc: Some(true), nulls_first: Some(true) },
            OrderByExpr { expr: col("b"), asc: None, nulls_first: Some(false) },
        ],
        unique: true,
        if_not_exists: true,
    };
    assert_eq!(
        render(&stmt),
        "CREATE UNIQUE INDEX IF NOT EXISTS idx ON t(a ASC NULLS FIRST,b NULLS LAST)"
    );
}

#[test]
fn drop_with_all_its_flags() {
    let stmt = Statement::Drop {
        object_type: ObjectType::Table,
        if_exists: true,
        names: vec![name(&["a"]), name(&["s", "b"])],
        cascade: true,
        purge: true,
    };
    assert_eq!(render(&stmt), "DROP TABLE IF EXISTS a, s.b CASCADE PURGE");
    let kinds = [
        (ObjectType::View, "DROP VIEW v"),
        (ObjectType::Index, "DROP INDEX v"),
        (ObjectType::Schema, "DROP SCHEMA v"),
    ];
    for (object_type, text) in kinds {
        let stmt = Statement::Drop {
            object_type,
            if_exists: false,
            names: vec![name(&["v"])],
            cascade: false,
            purge: false,
        };
        assert_eq!(render(&stmt), text);
    }
}

#[test]
fn set_variable_with_identifier_and_literal() {
    let stmt = Statement::SetVariable {
        local: true,
        hivevar: true,
        variable: Ident::new("x"),
        value: vec![
            SetVariableValue::Ident(Ident::new("on")),
            SetVariableValue::Literal(Value::Number("5".to_string(), true)),
        ],
    };
    assert_eq!(render(&stmt), "SET LOCAL HIVEVAR:x = on, 5L");
    let bare = Statement::SetVariable {
        local: false,
        hivevar: false,
        variable: Ident::new("x"),
        value: vec![SetVariableValue::Literal(Value::Null)],
    };
    assert_eq!(render(&bare), "SET x = NULL");
}

#[test]
fn use_database_names_the_database() {
    let stmt = Statement::UseDatabase { variable: Ident::with_quote('`', "my db") };
    assert_eq!(render(&stmt), "USE `my db`");
}

#[test]
fn show_columns_with_each_filter() {
    let like = Statement::ShowColumns {
        extended: true,
        full: true,
        table_name: name(&["t"]),
        filter: Some(ShowStatementFilter::Like("a'b%".to_string())),
    };
    assert_eq!(render(&like), "SHOW EXTENDED FULL COLUMNS FROM t LIKE 'a''b%'");
    let wher = Statement::ShowColumns {
        extended: false,
        full: false,
        table_name: name(&["t"]),
        filter: Some(ShowStatementFilter::Where(col("x"))),
    };
    assert_eq!(render(&wher), "SHOW COLUMNS FROM t WHERE x");
    let ilike = Statement::ShowColumns {
        extended: false,
        full: false,
        table_name: name(&["t"]),
        filter: Some(ShowStatementFilter::ILike("x".to_string())),
    };
    assert_eq!(render(&ilike), "SHOW COLUMNS FROM t ");
    let none = Statement::ShowColumns {
        extended: false,
        full: false,
        table_name: name(&["t"]),
        filter: None,
    };
    assert_eq!(render(&none), "SHOW COLUMNS FROM t");
}

#[test]
fn transactions_and_their_modes() {
    let start = Statement::StartTransaction {
        modes: vec![
            TransactionMode::AccessMode(TransactionAccessMode::ReadOnly),
            TransactionMode::IsolationLevel(TransactionIsolationLevel::Serializable),
        ],
    };
    assert_eq!(render(&start), "START TRANSACTION READ ONLY, ISOLATION LEVEL SERIALIZABLE");
    assert_eq!(render(&Statement::StartTransaction { modes: vec![] }), "START TRANSACTION");
    let set = Statement::SetTransaction {
        session: true,
        modes: vec![TransactionMode::AccessMode(TransactionAccessMode::ReadWrite)],
    };
    assert_eq!(render(&set), "SET SESSION TRANSACTION READ WRITE");
    let levels = [
        (TransactionIsolationLevel::ReadUncommitted, "SET TRANSACTION ISOLATION LEVEL READ UNCOMMITTED"),
        (TransactionIsolationLevel::ReadCommitted, "SET TRANSACTION ISOLATION LEVEL READ COMMITTED"),
        (TransactionIsolationLevel::RepeatableRead, "SET TRANSACTION ISOLATION LEVEL REPEATABLE READ"),
    ];
    for (level, text) in levels {
        let stmt = Statement::SetTransaction {
            session: false,
            modes: vec![TransactionMode::IsolationLevel(level)],
        };
        assert_eq!(render(&stmt), text);
    }
    assert_eq!(render(&Statement::SetTransaction { session: false, modes: vec![] }), "SET TRANSACTION");
}

#[test]
fn commit_rollback_and_savepoints() {
    assert_eq!(render(&Statement::Commit { chain: false }), "COMMIT");
    assert_eq!(render(&Statement::Commit { chain: true }), "COMMIT AND CHAIN");
    assert_eq!(render(&Statement::Rollback { chain: false, savepoint: None }), "ROLLBACK");
    assert_eq!(render(&Statement::Rollback { chain: true, savepoint: None }), "ROLLBACK AND CHAIN");
    assert_eq!(
        render(&Statement::Rollback { chain: true, savepoint: Some(Ident::new("sp")) }),
        "ROLLBACK TO SAVEPOINT sp"
    );
    assert_eq!(render(&Statement::Savepoint { variable: Ident::new("sp") }), "SAVEPOINT sp");
    assert_eq!(render(&Statement::Release { variable: Ident::new("sp") }), "RELEASE SAVEPOINT sp");
}

#[test]
fn create_schema_with_and_without_guard() {
    let stmt = Statement::CreateSchema { schema_name: name(&["s"]), if_not_exists: true };
    assert_eq!(render(&stmt), "CREATE SCHEMA IF NOT EXISTS s");
    let bare = Statement::CreateSchema { schema_name: name(&["s"]), if_not_exists: false };
    assert_eq!(render(&bare), "CREATE SCHEMA s");
}

#[test]
fn assert_with_and_without_message() {
    let stmt = Statement::Assert {
        condition: col("c"),
        message: Some(Expr::Value(Value::SingleQuotedString("no".to_string()))),
    };
    assert_eq!(render(&stmt), "ASSERT c AS 'no'");
    assert_eq!(render(&Statement::Assert { condition: col("c"), message: None }), "ASSERT c");
}

#[test]
fn prepared_statements() {
    let prepare = Statement::Prepare {
        name: Ident::new("p"),
        data_types: vec![DataType::Int, DataType::Text],
        statement: Box::new(Statement::Query(select_one())),
    };
    assert_eq!(render(&prepare), "PREPARE p (INT, TEXT) AS SELECT 1");
    let untyped = Statement::Prepare {
        name: Ident::new("p"),
        data_types: vec![],
        statement: Box::new(Statement::Query(select_one())),
    };
    assert_eq!(render(&untyped), "PREPARE p AS SELECT 1");
    let execute = Statement::Execute { name: Ident::new("p"), parameters: vec![num("1"), num("2")] };
    assert_eq!(render(&execute), "EXECUTE p(1, 2)");
    let bare = Statement::Execute { name: Ident::new("p"), parameters: vec![] };
    assert_eq!(render(&bare), "EXECUTE p");
    let deallocate = Statement::Deallocate { name: Ident::new("p"), prepare: true };
    assert_eq!(render(&deallocate), "DEALLOCATE PREPARE p");
    let short = Statement::Deallocate { name: Ident::new("p"), prepare: false };
    assert_eq!(render(&short), "DEALLOCATE p");
}

#[test]
fn every_file_format_has_its_keyword() {
    let cases = [
        (FileFormat::TEXTFILE, "TEXTFILE"),
        (FileFormat::SEQUENCEFILE, "SEQUENCEFILE"),
        (FileFormat::ORC, "ORC"),
        (FileFormat::PARQUET, "PARQUET"),
        (FileFormat::AVRO, "AVRO"),
        (FileFormat::RCFILE, "RCFILE"),
        (FileFormat::JSONFILE, "JSONFILE"),
    ];
    for (format, keyword) in cases {
        let mut out = String::new();
        format.rewrite(&mut out, &RenderContext::new()).unwrap();
        assert_eq!(out, keyword);
    }
}

#[test]
fn rewrite_appends_to_what_the_sink_holds() {
    let mut out = String::from("-- ");
    Statement::Commit { chain: false }.rewrite(&mut out, &RenderContext::new()).unwrap();
    assert_eq!(out, "-- COMMIT");
    Statement::Commit { chain: true }.rewrite(&mut out, &RenderContext::new()).unwrap();
    assert_eq!(out, "-- COMMITCOMMIT AND CHAIN");
}

#[test]
fn separated_lists_have_one_separator_less_than_items() {
    let items = vec![Ident::new("a"), Ident::new("b"), Ident::new("c")];
    let mut out = String::new();
    display_comma_separated(&items).rewrite(&mut out, &RenderContext::new()).unwrap();
    assert_eq!(out, "a, b, c");
    assert_eq!(out.matches(", ").count(), items.len() - 1);
    let mut dotted = String::new();
    display_separated(&items, ".").rewrite(&mut dotted, &RenderContext::new()).unwrap();
    assert_eq!(dotted, "a.b.c");
    let one = vec![Ident::new("only")];
    let mut single = String::new();
    display_comma_separated(&one).rewrite(&mut single, &RenderContext::new()).unwrap();
    assert_eq!(single, "only");
    let none: Vec<Ident> = vec![];
    let mut empty = String::new();
    display_comma_separated(&none).rewrite(&mut empty, &RenderContext::new()).unwrap();
    assert_eq!(empty, "");
}

#[test]
fn a_string_is_its_own_text() {
    let mut out = String::new();
    let mut ctx = RenderContext::new();
    ctx.insert("plain".to_string(), "changed".to_string());
    "plain".to_string().rewrite(&mut out, &ctx).unwrap();
    assert_eq!(out, "plain");
}
