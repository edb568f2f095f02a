use martlet_proxy::context::RenderContext;
use martlet_proxy::expr::Expr;
use martlet_proxy::ident::{Ident, ObjectName};
use martlet_proxy::query::{Query, Select, SelectItem, SetExpr, TableFactor, TableWithJoins};
use martlet_proxy::rewrite::SQLReWrite;
use martlet_proxy::service::{new_service, MySQLService, Service};
use martlet_proxy::statement::Statement;

fn select_from(e: Expr, from: Vec<TableWithJoins>) -> Box<Query> {
    Box::new(Query {
        with: None,
        body: SetExpr::Select(Box::new(Select {
            distinct: false,
            top: None,
            projection: vec![SelectItem::UnnamedExpr(e)],
            from,
            lateral_views: vec![],
            selection: None,
            group_by: vec![],
            cluster_by: vec![],
            distribute_by: vec![],
            sort_by: vec![],
            having: None,
        })),
        order_by: vec![],
        limit: None,
        offset: None,
        fetch: None,
    })
}

fn nested(depth: usize, inner: Expr) -> Expr {
    let mut e = inner;
    for _ in 0..depth {
        e = Expr::Subquery(select_from(e, vec![]));
    }
    e
}

fn render<T: SQLReWrite>(node: &T, ctx: &RenderContext) -> String {
    let mut out = String::new();
    node.rewrite(&mut out, ctx).unwrap();
    out
}

#[test]
fn context_starts_empty_and_keeps_the_last_entry() {
    let mut ctx = RenderContext::new();
    assert!(ctx.is_empty());
    assert_eq!(ctx.get("a"), None);
    ctx.insert("a".to_string(), "x".to_string());
    assert!(!ctx.is_empty());
    assert_eq!(ctx.get("a"), Some(&"x".to_string()));
    assert_eq!(ctx.get("b"), None);
    ctx.insert("a".to_string(), "y".to_string());
    assert_eq!(ctx.get("a"), Some(&"y".to_string()));
}

#[test]
fn an_entry_replaces_the_identifier_and_keeps_its_quotes() {
    let mut ctx = RenderContext::new();
    ctx.insert("orders".to_string(), "orders_7".to_string());
    assert_eq!(render(&Ident::new("orders"), &ctx), "orders_7");
    assert_eq!(render(&Ident::with_quote('`', "orders"), &ctx), "`orders_7`");
    assert_eq!(render(&Ident::with_quote('[', "orders"), &ctx), "[orders_7]");
    assert_eq!(render(&Ident::new("Orders"), &ctx), "Orders");
    assert_eq!(render(&Ident::new("orders_7"), &ctx), "orders_7");
}

#[test]
fn an_entry_reaches_identifiers_deep_inside_subqueries() {
    let mut ctx = RenderContext::new();
    ctx.insert("t".to_string(), "t_shard_3".to_string());
    let e = nested(3, Expr::Identifier(Ident::new("t")));
    assert_eq!(render(&e, &ctx), "(SELECT (SELECT (SELECT t_shard_3)))");
    assert_eq!(render(&e, &RenderContext::new()), "(SELECT (SELECT (SELECT t)))");
    let deep = nested(40, Expr::Identifier(Ident::with_quote('"', "t")));
    let expected = format!("{}\"t_shard_3\"{}", "(SELECT ".repeat(40), ")".repeat(40));
    assert_eq!(render(&deep, &ctx), expected);
}

#[test]
fn an_entry_reaches_every_part_of_a_statement() {
    let mut ctx = RenderContext::new();
    ctx.insert("t".to_string(), "t2".to_string());
    ctx.insert("db".to_string(), "db2".to_string());
    let table = TableWithJoins {
        relation: TableFactor::Table {
            name: ObjectName(vec![Ident::new("db"), Ident::new("t")]),
            alias: None,
            args: vec![],
            with_hints: vec![],
        },
        joins: vec![],
    };
    let inner = Expr::Exists(select_from(
        Expr::CompoundIdentifier(vec![Ident::new("t"), Ident::new("c")]),
        vec![table],
    ));
    let stmt = Statement::Delete {
        table_name: ObjectName(vec![Ident::new("db"), Ident::new("t")]),
        selection: Some(inner),
    };
    assert_eq!(
        render(&stmt, &ctx),
        "DELETE FROM db2.t2 WHERE EXISTS (SELECT t2.c FROM db2.t2)"
    );
    assert_eq!(
        render(&stmt, &RenderContext::new()),
        "DELETE FROM db.t WHERE EXISTS (SELECT t.c FROM db.t)"
    );
}

#[test]
fn the_context_leaves_literals_and_keywords_alone() {
    let mut ctx = RenderContext::new();
    ctx.insert("SELECT".to_string(), "x".to_string());
    ctx.insert("utf8".to_string(), "latin1".to_string());
    let stmt = Statement::Query(select_from(
        Expr::Value(martlet_proxy::value::Value::SingleQuotedString("utf8".to_string())),
        vec![],
    ));
    assert_eq!(render(&stmt, &ctx), "SELECT 'utf8'");
}

#[test]
fn the_service_sends_on_the_statement_text() {
    let mut ctx = RenderContext::new();
    ctx.insert("t".to_string(), "t1".to_string());
    let stmt = Statement::Delete {
        table_name: ObjectName(vec![Ident::new("t")]),
        selection: None,
    };
    let service = new_service();
    assert_eq!(service.serve(&stmt, &ctx).unwrap(), "DELETE FROM t1");
    assert_eq!(service.serve(&stmt, &RenderContext::new()).unwrap(), "DELETE FROM t");
    let direct = MySQLService {};
    assert_eq!(direct.serve(&stmt, &ctx).unwrap(), render(&stmt, &ctx));
}

fn derived(q: Box<Query>) -> TableWithJoins {
    TableWithJoins {
        relation: TableFactor::Derived { lateral: false, subquery: q, alias: None },
        joins: vec![],
    }
}

fn select_where(e: Expr, from: Vec<TableWithJoins>, selection: Expr) -> Box<Query> {
    let mut q = select_from(e, from);
    if let SetExpr::Select(sel) = &mut q.body {
        sel.selection = Some(selection);
    }
    q
}

#[test]
fn an_entry_reaches_subqueries_in_where_in_exists_and_from() {
    let mut ctx = RenderContext::new();
    ctx.insert("k".to_string(), "r".to_string());
    let leaf = || Expr::Identifier(Ident::new("k"));
    let innermost = select_from(leaf(), vec![]);
    let in_from = select_from(Expr::Wildcard, vec![derived(innermost)]);
    let in_exists = select_where(Expr::Wildcard, vec![], Expr::Exists(in_from));
    let in_in = select_where(
        Expr::Wildcard,
        vec![],
        Expr::InSubquery { expr: Box::new(leaf()), subquery: in_exists, negated: false },
    );
    let stmt = Statement::Query(select_where(
        leaf(),
        vec![],
        Expr::Subquery(in_in),
    ));
    assert_eq!(
        render(&stmt, &ctx),
        "SELECT r WHERE (SELECT * WHERE r IN (SELECT * WHERE EXISTS (SELECT * FROM (SELECT r))))"
    );
    assert_eq!(
        render(&stmt, &RenderContext::new()),
        "SELECT k WHERE (SELECT * WHERE k IN (SELECT * WHERE EXISTS (SELECT * FROM (SELECT k))))"
    );
    assert_eq!(render(&Ident::new("k"), &ctx), "r");
}
