//! Queries and their text.

use vstd::prelude::*;
use vstd::std_specs::vec::axiom_vec_index_decreases;
use crate::context::Context;
use crate::context::RenderContext;
use crate::expr::Expr;
use crate::expr::FunctionArg;
use crate::expr::check_expr;
use crate::expr::check_exprs;
use crate::expr::check_function_args;
use crate::expr::check_optional_expr;
use crate::expr::expr_text;
use crate::expr::expr_texts;
use crate::expr::expr_wf;
use crate::expr::exprs_wf;
use crate::expr::function_arg_texts;
use crate::expr::function_args_wf;
use crate::expr::optional_expr_text;
use crate::expr::optional_expr_wf;
use crate::expr::write_expr;
use crate::expr::write_exprs;
use crate::expr::write_function_args;
use crate::expr::write_optional_expr;
use crate::ident::Ident;
use crate::ident::ObjectName;
use crate::ident::check_idents;
use crate::ident::ident_text;
use crate::ident::ident_texts;
use crate::ident::idents_wf;
use crate::ident::object_name_text;
use crate::ident::write_ident;
use crate::ident::write_idents;
use crate::ident::write_object_name;
use crate::statement::Statement;
use crate::statement::check_statement;
use crate::statement::statement_text;
use crate::statement::statement_wf;
use crate::statement::write_statement;
use crate::text::appended;
use crate::text::concatenated;
use crate::text::flag_text;
use crate::text::lemma_empty_literal;
use crate::text::lemma_separated_none;
use crate::text::lemma_separated_step;
use crate::text::put;
use crate::text::separated;
use crate::text::write_flag;

verus! {

broadcast use crate::text::group_sink;

/// The most complete variant of a `SELECT` query expression, optionally
/// including `WITH`, `UNION` / other set operations, and `ORDER BY`.
#[derive(Debug, PartialEq, Eq, Hash)]
pub struct Query {
    /// WITH (common table expressions, or CTEs).
    pub with: Option<With>,
    /// SELECT or UNION / EXCEPT / INTERSECT.
    pub body: SetExpr,
    /// ORDER BY.
    pub order_by: Vec<OrderByExpr>,
    /// `LIMIT { <N> | ALL }`.
    pub limit: Option<Expr>,
    /// `OFFSET <N> [ { ROW | ROWS } ]`.
    pub offset: Option<Offset>,
    /// `FETCH { FIRST | NEXT } <N> [ PERCENT ] { ROW | ROWS } | { ONLY | WITH TIES }`.
    pub fetch: Option<Fetch>,
}

/// A node in a tree, representing a "query body" expression, roughly:
/// `SELECT ... [ {UNION|EXCEPT|INTERSECT} SELECT ...]`.
#[allow(inconsistent_fields)]
#[derive(Debug, PartialEq, Eq, Hash)]
pub enum SetExpr {
    /// Restricted SELECT .. FROM .. HAVING (no ORDER BY or set operations).
    Select(Box<Select>),
    /// Parenthesized SELECT subquery, which may include more set operations
    /// in its body and an optional ORDER BY / LIMIT.
    Query(Box<Query>),
    /// UNION/EXCEPT/INTERSECT of two queries.
    SetOperation { op: SetOperator, all: bool, left: Box<SetExpr>, right: Box<SetExpr> },
    Values(Values),
    Insert(Statement),
}

/// The operator of a set operation.
#[derive(Debug, Clone, Copy, PartialEq, Eq, Hash)]
pub enum SetOperator {
    Union,
    Except,
    Intersect,
}

/// A restricted variant of `SELECT` (without CTEs/`ORDER BY`), which may
/// appear either as the only body item of a `Query`, or as an operand to a
/// set operation like `UNION`.
#[derive(Debug, PartialEq, Eq, Hash)]
pub struct Select {
    pub distinct: bool,
    /// MSSQL syntax: `TOP (<N>) [ PERCENT ] [ WITH TIES ]`.
    pub top: Option<Top>,
    /// Projection expressions.
    pub projection: Vec<SelectItem>,
    /// FROM.
    pub from: Vec<TableWithJoins>,
    /// LATERAL VIEWs.
    pub lateral_views: Vec<LateralView>,
    /// WHERE.
    pub selection: Option<Expr>,
    /// GROUP BY.
    pub group_by: Vec<Expr>,
    /// CLUSTER BY (Hive).
    pub cluster_by: Vec<Expr>,
    /// DISTRIBUTE BY (Hive).
    pub distribute_by: Vec<Expr>,
    /// SORT BY (Hive).
    pub sort_by: Vec<Expr>,
    /// HAVING.
    pub having: Option<Expr>,
}

/// A hive LATERAL VIEW with potential column aliases.
#[derive(Debug, PartialEq, Eq, Hash)]
pub struct LateralView {
    /// LATERAL VIEW.
    pub lateral_view: Expr,
    /// LATERAL VIEW table name.
    pub lateral_view_name: ObjectName,
    /// LATERAL VIEW optional column aliases.
    pub lateral_col_alias: Vec<Ident>,
    /// LATERAL VIEW OUTER.
    pub outer: bool,
}

/// The `WITH` clause of a query.
#[derive(Debug, PartialEq, Eq, Hash)]
pub struct With {
    pub recursive: bool,
    pub cte_tables: Vec<Cte>,
}

/// A single CTE (used after `WITH`): `alias [(col1, col2, ...)] AS ( query )`.
/// The names in the column list before `AS`, when specified, replace the names
/// of the columns returned by the query.
#[derive(Debug, PartialEq, Eq, Hash)]
pub struct Cte {
    pub alias: TableAlias,
    pub query: Query,
    pub from: Option<Ident>,
}

/// One item of the comma-separated list following `SELECT`.
#[allow(inconsistent_fields)]
#[derive(Debug, PartialEq, Eq, Hash)]
pub enum SelectItem {
    /// Any expression, not followed by `[ AS ] alias`.
    UnnamedExpr(Expr),
    /// An expression, followed by `[ AS ] alias`.
    ExprWithAlias { expr: Expr, alias: Ident },
    /// `alias.*` or even `schema.table.*`.
    QualifiedWildcard(ObjectName),
    /// An unqualified `*`.
    Wildcard,
}

/// A table and the joins that follow it.
#[derive(Debug, PartialEq, Eq, Hash)]
pub struct TableWithJoins {
    pub relation: TableFactor,
    pub joins: Vec<Join>,
}

/// A table name or a parenthesized subquery with an optional alias.
#[allow(inconsistent_fields)]
#[derive(Debug, PartialEq, Eq, Hash)]
pub enum TableFactor {
    Table {
        name: ObjectName,
        alias: Option<TableAlias>,
        /// Arguments of a table-valued function, as supported by Postgres
        /// and MSSQL.
        args: Vec<FunctionArg>,
        /// MSSQL-specific `WITH (...)` hints such as NOLOCK.
        with_hints: Vec<Expr>,
    },
    Derived { lateral: bool, subquery: Box<Query>, alias: Option<TableAlias> },
    /// `TABLE(<expr>)[ AS <alias> ]`.
    TableFunction { expr: Expr, alias: Option<TableAlias> },
    /// Represents a parenthesized table factor. The SQL spec only allows a
    /// join expression (`(foo <JOIN> bar [ <JOIN> baz ... ])`) to be nested,
    /// possibly several times.
    NestedJoin(Box<TableWithJoins>),
}

/// The alias of a table, with the names it gives to the columns.
#[derive(Debug, Clone, PartialEq, Eq, Hash)]
pub struct TableAlias {
    pub name: Ident,
    pub columns: Vec<Ident>,
}

/// A joined table and the way it is joined.
#[derive(Debug, PartialEq, Eq, Hash)]
pub struct Join {
    pub relation: TableFactor,
    pub join_operator: JoinOperator,
}

/// The kind of a join.
#[allow(inconsistent_fields)]
#[derive(Debug, PartialEq, Eq, Hash)]
pub enum JoinOperator {
    Inner(JoinConstraint),
    LeftOuter(JoinConstraint),
    RightOuter(JoinConstraint),
    FullOuter(JoinConstraint),
    CrossJoin,
    /// CROSS APPLY (non-standard).
    CrossApply,
    /// OUTER APPLY (non-standard).
    OuterApply,
}

/// The condition of a join.
#[allow(inconsistent_fields)]
#[derive(Debug, PartialEq, Eq, Hash)]
pub enum JoinConstraint {
    On(Expr),
    Using(Vec<Ident>),
    Natural,
    /// No condition is given.
    Unconstrained,
}

/// An `ORDER BY` expression.
#[derive(Debug, PartialEq, Eq, Hash)]
pub struct OrderByExpr {
    pub expr: Expr,
    /// Optional `ASC` or `DESC`.
    pub asc: Option<bool>,
    /// Optional `NULLS FIRST` or `NULLS LAST`.
    pub nulls_first: Option<bool>,
}

/// The `OFFSET` clause of a query.
#[derive(Debug, PartialEq, Eq, Hash)]
pub struct Offset {
    pub value: Expr,
    pub rows: OffsetRows,
}

/// Stores the keyword after `OFFSET <number>`.
#[derive(Debug, Clone, Copy, PartialEq, Eq, Hash)]
pub enum OffsetRows {
    /// Omitting ROW/ROWS is non-standard MySQL quirk.
    Omitted,
    Row,
    Rows,
}

/// The `FETCH` clause of a query.
#[derive(Debug, PartialEq, Eq, Hash)]
pub struct Fetch {
    pub with_ties: bool,
    pub percent: bool,
    pub quantity: Option<Expr>,
}

/// The `TOP` clause of a select.
#[derive(Debug, PartialEq, Eq, Hash)]
pub struct Top {
    /// SQL semantic equivalent of LIMIT but with same structure as FETCH.
    pub with_ties: bool,
    pub percent: bool,
    pub quantity: Option<Expr>,
}

/// The rows of a `VALUES` list.
#[derive(Debug, PartialEq, Eq, Hash)]
pub struct Values(pub Vec<Vec<Expr>>);

/// The text of an `ORDER BY` expression.
pub open spec fn order_by_expr_text(o: OrderByExpr, ctx: Context) -> Seq<char>
    decreases o, 1int,
{
    expr_text(o.expr, ctx) + match o.asc {
        Some(true) => " ASC"@,
        Some(false) => " DESC"@,
        None => Seq::empty(),
    } + match o.nulls_first {
        Some(true) => " NULLS FIRST"@,
        Some(false) => " NULLS LAST"@,
        None => Seq::empty(),
    }
}

/// The text of a table alias: the name and, where columns are named, their
/// list in parentheses.
pub open spec fn table_alias_text(a: TableAlias, ctx: Context) -> Seq<char> {
    ident_text(a.name, ctx) + flag_text(
        a.columns@.len() > 0,
        " ("@ + separated(ident_texts(a.columns@, ctx), ", "@) + ")"@,
    )
}

/// ` AS ` and the alias, or nothing where there is none.
pub open spec fn optional_alias_text(a: Option<TableAlias>, ctx: Context) -> Seq<char> {
    match a {
        Some(alias) => " AS "@ + table_alias_text(alias, ctx),
        None => Seq::empty(),
    }
}

/// The text of a common table expression.
pub open spec fn cte_text(c: Cte, ctx: Context) -> Seq<char>
    decreases c, 1int,
{
    table_alias_text(c.alias, ctx) + " AS ("@ + query_text(c.query, ctx) + ")"@ + match c.from {
        Some(id) => " FROM "@ + ident_text(id, ctx),
        None => Seq::empty(),
    }
}

/// The text of a `WITH` clause.
pub open spec fn with_text(w: With, ctx: Context) -> Seq<char>
    decreases w, 1int,
{
    "WITH "@ + flag_text(w.recursive, "RECURSIVE "@) + separated(cte_texts(w.cte_tables@, ctx), ", "@)
}

/// The text of one item of a projection.
pub open spec fn select_item_text(item: SelectItem, ctx: Context) -> Seq<char>
    decreases item, 1int,
{
    match item {
        SelectItem::UnnamedExpr(e) => expr_text(e, ctx),
        SelectItem::ExprWithAlias { expr, alias } => expr_text(expr, ctx) + " AS "@ + ident_text(
            alias,
            ctx,
        ),
        SelectItem::QualifiedWildcard(prefix) => object_name_text(prefix, ctx) + ".*"@,
        SelectItem::Wildcard => "*"@,
    }
}

/// The keyword that a join's condition puts before `JOIN`.
pub open spec fn join_prefix_text(c: JoinConstraint) -> Seq<char> {
    match c {
        JoinConstraint::Natural => "NATURAL "@,
        _ => Seq::empty(),
    }
}

/// The text that a join's condition puts after the joined table.
pub open spec fn join_suffix_text(c: JoinConstraint, ctx: Context) -> Seq<char>
    decreases c, 1int,
{
    match c {
        JoinConstraint::On(e) => " ON "@ + expr_text(e, ctx),
        JoinConstraint::Using(attrs) => " USING("@ + separated(ident_texts(attrs@, ctx), ", "@)
            + ")"@,
        _ => Seq::empty(),
    }
}

/// The text of a join, with the space that parts it from what stands before.
pub open spec fn join_text(j: Join, ctx: Context) -> Seq<char>
    decreases j, 2int,
{
    match j.join_operator {
        JoinOperator::Inner(c) => " "@ + join_prefix_text(c) + "JOIN "@ + table_factor_text(
            j.relation,
            ctx,
        ) + join_suffix_text(c, ctx),
        JoinOperator::LeftOuter(c) => " "@ + join_prefix_text(c) + "LEFT JOIN "@ + table_factor_text(
            j.relation,
            ctx,
        ) + join_suffix_text(c, ctx),
        JoinOperator::RightOuter(c) => " "@ + join_prefix_text(c) + "RIGHT JOIN "@ + table_factor_text(
            j.relation,
            ctx,
        ) + join_suffix_text(c, ctx),
        JoinOperator::FullOuter(c) => " "@ + join_prefix_text(c) + "FULL JOIN "@ + table_factor_text(
            j.relation,
            ctx,
        ) + join_suffix_text(c, ctx),
        JoinOperator::CrossJoin => " CROSS JOIN "@ + table_factor_text(j.relation, ctx),
        JoinOperator::CrossApply => " CROSS APPLY "@ + table_factor_text(j.relation, ctx),
        JoinOperator::OuterApply => " OUTER APPLY "@ + table_factor_text(j.relation, ctx),
    }
}

/// The text of a table factor.
pub open spec fn table_factor_text(t: TableFactor, ctx: Context) -> Seq<char>
    decreases t, 1int,
{
    match t {
        TableFactor::Table { name, alias, args, with_hints } => object_name_text(name, ctx)
            + flag_text(
            args@.len() > 0,
            "("@ + separated(function_arg_texts(args@, ctx), ", "@) + ")"@,
        ) + optional_alias_text(alias, ctx) + flag_text(
            with_hints@.len() > 0,
            " WITH ("@ + separated(expr_texts(with_hints@, ctx), ", "@) + ")"@,
        ),
        TableFactor::Derived { lateral, subquery, alias } => flag_text(lateral, "LATERAL "@) + "("@
            + query_text(*subquery, ctx) + ")"@ + optional_alias_text(alias, ctx),
        TableFactor::TableFunction { expr, alias } => "TABLE("@ + expr_text(expr, ctx) + ")"@
            + optional_alias_text(alias, ctx),
        TableFactor::NestedJoin(inner) => "("@ + table_with_joins_text(*inner, ctx) + ")"@,
    }
}

/// The text of a table with the joins that follow it.
pub open spec fn table_with_joins_text(t: TableWithJoins, ctx: Context) -> Seq<char>
    decreases t, 1int,
{
    table_factor_text(t.relation, ctx) + concatenated(join_texts(t.joins@, ctx))
}

/// The text of a lateral view, with the space that parts it from what stands
/// before.
pub open spec fn lateral_view_text(v: LateralView, ctx: Context) -> Seq<char>
    decreases v, 1int,
{
    " LATERAL VIEW"@ + flag_text(v.outer, " OUTER"@) + " "@ + expr_text(v.lateral_view, ctx) + " "@
        + object_name_text(v.lateral_view_name, ctx) + flag_text(
        v.lateral_col_alias@.len() > 0,
        " AS "@ + separated(ident_texts(v.lateral_col_alias@, ctx), ", "@),
    )
}

/// The text of a `TOP` clause.
pub open spec fn top_text(t: Top, ctx: Context) -> Seq<char>
    decreases t, 1int,
{
    match t.quantity {
        Some(q) => "TOP ("@ + expr_text(q, ctx) + ")"@ + flag_text(t.percent, " PERCENT"@)
            + flag_text(t.with_ties, " WITH TIES"@),
        None => "TOP"@ + flag_text(t.with_ties, " WITH TIES"@),
    }
}

/// The text of a `FETCH` clause.
pub open spec fn fetch_text(t: Fetch, ctx: Context) -> Seq<char>
    decreases t, 1int,
{
    let extension = if t.with_ties {
        "WITH TIES"@
    } else {
        "ONLY"@
    };
    match t.quantity {
        Some(q) => "FETCH FIRST "@ + expr_text(q, ctx) + flag_text(t.percent, " PERCENT"@)
            + " ROWS "@ + extension,
        None => "FETCH FIRST ROWS "@ + extension,
    }
}

/// The keyword that follows the number of an `OFFSET` clause.
pub open spec fn offset_rows_text(rows: OffsetRows) -> Seq<char> {
    match rows {
        OffsetRows::Omitted => Seq::empty(),
        OffsetRows::Row => " ROW"@,
        OffsetRows::Rows => " ROWS"@,
    }
}

/// The text of an `OFFSET` clause.
pub open spec fn offset_text(o: Offset, ctx: Context) -> Seq<char>
    decreases o, 1int,
{
    "OFFSET "@ + expr_text(o.value, ctx) + offset_rows_text(o.rows)
}

/// The text of one row of a `VALUES` list.
pub open spec fn row_text(row: Vec<Expr>, ctx: Context) -> Seq<char>
    decreases row, 1int,
{
    "("@ + separated(expr_texts(row@, ctx), ", "@) + ")"@
}

/// The text of a `VALUES` list.
pub open spec fn values_text(v: Values, ctx: Context) -> Seq<char>
    decreases v, 1int,
{
    "VALUES "@ + separated(row_texts(v.0@, ctx), ", "@)
}

/// `lead`, then the expressions of `list` with commas between them; nothing
/// for an empty list.
pub open spec fn expr_clause_text(lead: Seq<char>, list: Vec<Expr>, ctx: Context) -> Seq<char>
    decreases list, 1int,
{
    flag_text(list@.len() > 0, lead + separated(expr_texts(list@, ctx), ", "@))
}

/// A space and the `TOP` clause, or nothing where there is none.
pub open spec fn optional_top_text(top: Option<Top>, ctx: Context) -> Seq<char>
    decreases top, 2int,
{
    match top {
        Some(t) => " "@ + top_text(t, ctx),
        None => Seq::empty(),
    }
}

/// ` FROM ` and the tables with commas between them; nothing for no table.
pub open spec fn from_clause_text(from: Vec<TableWithJoins>, ctx: Context) -> Seq<char>
    decreases from, 1int,
{
    flag_text(from@.len() > 0, " FROM "@ + separated(table_with_joins_texts(from@, ctx), ", "@))
}

/// The head of a `SELECT`: the keywords, the projection and the tables.
pub open spec fn select_head_text(s: Select, ctx: Context) -> Seq<char>
    decreases s, 1int,
{
    "SELECT"@ + flag_text(s.distinct, " DISTINCT"@) + optional_top_text(s.top, ctx) + " "@
        + separated(select_item_texts(s.projection@, ctx), ", "@) + from_clause_text(s.from, ctx)
}

/// The clauses of a `SELECT` that follow its tables: lateral views, then
/// `WHERE`, `GROUP BY`, `CLUSTER BY`, `DISTRIBUTE BY`, `SORT BY` and `HAVING`.
pub open spec fn select_tail_text(s: Select, ctx: Context) -> Seq<char>
    decreases s, 1int,
{
    concatenated(lateral_view_texts(s.lateral_views@, ctx)) + optional_expr_text(
        " WHERE "@,
        s.selection,
        ctx,
    ) + expr_clause_text(" GROUP BY "@, s.group_by, ctx) + expr_clause_text(
        " CLUSTER BY "@,
        s.cluster_by,
        ctx,
    ) + expr_clause_text(" DISTRIBUTE BY "@, s.distribute_by, ctx) + expr_clause_text(
        " SORT BY "@,
        s.sort_by,
        ctx,
    ) + optional_expr_text(" HAVING "@, s.having, ctx)
}

/// The text of a `SELECT` without set operations and ordering.
pub open spec fn select_text(s: Select, ctx: Context) -> Seq<char>
    decreases s, 2int,
{
    select_head_text(s, ctx) + select_tail_text(s, ctx)
}

/// The keyword of a set operator.
pub open spec fn set_operator_text(op: SetOperator) -> Seq<char> {
    match op {
        SetOperator::Union => "UNION"@,
        SetOperator::Except => "EXCEPT"@,
        SetOperator::Intersect => "INTERSECT"@,
    }
}

/// The text of a query body.
pub open spec fn set_expr_text(s: SetExpr, ctx: Context) -> Seq<char>
    decreases s, 1int,
{
    match s {
        SetExpr::Select(sel) => select_text(*sel, ctx),
        SetExpr::Query(q) => "("@ + query_text(*q, ctx) + ")"@,
        SetExpr::Values(v) => values_text(v, ctx),
        SetExpr::Insert(stmt) => statement_text(stmt, ctx),
        SetExpr::SetOperation { op, all, left, right } => set_expr_text(*left, ctx) + " "@
            + set_operator_text(op) + flag_text(all, " ALL"@) + " "@ + set_expr_text(*right, ctx),
    }
}

/// The `WITH` clause and a space, or nothing where there is none.
pub open spec fn optional_with_text(with: Option<With>, ctx: Context) -> Seq<char>
    decreases with, 2int,
{
    match with {
        Some(w) => with_text(w, ctx) + " "@,
        None => Seq::empty(),
    }
}

/// `lead` and the `ORDER BY` expressions with commas between them; nothing
/// for an empty list.
pub open spec fn order_by_clause_text(
    lead: Seq<char>,
    list: Vec<OrderByExpr>,
    ctx: Context,
) -> Seq<char>
    decreases list, 1int,
{
    flag_text(list@.len() > 0, lead + separated(order_by_expr_texts(list@, ctx), ", "@))
}

/// A space and the `OFFSET` clause, or nothing where there is none.
pub open spec fn optional_offset_text(offset: Option<Offset>, ctx: Context) -> Seq<char>
    decreases offset, 2int,
{
    match offset {
        Some(o) => " "@ + offset_text(o, ctx),
        None => Seq::empty(),
    }
}

/// A space and the `FETCH` clause, or nothing where there is none.
pub open spec fn optional_fetch_text(fetch: Option<Fetch>, ctx: Context) -> Seq<char>
    decreases fetch, 2int,
{
    match fetch {
        Some(t) => " "@ + fetch_text(t, ctx),
        None => Seq::empty(),
    }
}

/// The SQL text of a query.
pub open spec fn query_text(q: Query, ctx: Context) -> Seq<char>
    decreases q, 1int,
{
    optional_with_text(q.with, ctx) + set_expr_text(q.body, ctx) + order_by_clause_text(
        " ORDER BY "@,
        q.order_by,
        ctx,
    ) + optional_expr_text(" LIMIT "@, q.limit, ctx) + optional_offset_text(q.offset, ctx)
        + optional_fetch_text(q.fetch, ctx)
}

/// The SQL texts of the `ORDER BY` expressions of `s`, in order.
pub open spec fn order_by_expr_texts(s: Seq<OrderByExpr>, ctx: Context) -> Seq<Seq<char>>
    decreases s, 0int,
{
    Seq::new(
        s.len(),
        |i: int|
            if 0 <= i < s.len() {
                order_by_expr_text(s[i], ctx)
            } else {
                Seq::empty()
            },
    )
}

/// The SQL texts of the common table expressions of `s`, in order.
pub open spec fn cte_texts(s: Seq<Cte>, ctx: Context) -> Seq<Seq<char>>
    decreases s, 0int,
{
    Seq::new(
        s.len(),
        |i: int|
            if 0 <= i < s.len() {
                cte_text(s[i], ctx)
            } else {
                Seq::empty()
            },
    )
}

/// The SQL texts of the projection items of `s`, in order.
pub open spec fn select_item_texts(s: Seq<SelectItem>, ctx: Context) -> Seq<Seq<char>>
    decreases s, 0int,
{
    Seq::new(
        s.len(),
        |i: int|
            if 0 <= i < s.len() {
                select_item_text(s[i], ctx)
            } else {
                Seq::empty()
            },
    )
}

/// The SQL texts of the joins of `s`, in order.
pub open spec fn join_texts(s: Seq<Join>, ctx: Context) -> Seq<Seq<char>>
    decreases s, 0int,
{
    Seq::new(
        s.len(),
        |i: int|
            if 0 <= i < s.len() {
                join_text(s[i], ctx)
            } else {
                Seq::empty()
            },
    )
}

/// The SQL texts of the tables of `s`, in order.
pub open spec fn table_with_joins_texts(s: Seq<TableWithJoins>, ctx: Context) -> Seq<Seq<char>>
    decreases s, 0int,
{
    Seq::new(
        s.len(),
        |i: int|
            if 0 <= i < s.len() {
                table_with_joins_text(s[i], ctx)
            } else {
                Seq::empty()
            },
    )
}

/// The SQL texts of the lateral views of `s`, in order.
pub open spec fn lateral_view_texts(s: Seq<LateralView>, ctx: Context) -> Seq<Seq<char>>
    decreases s, 0int,
{
    Seq::new(
        s.len(),
        |i: int|
            if 0 <= i < s.len() {
                lateral_view_text(s[i], ctx)
            } else {
                Seq::empty()
            },
    )
}

/// The SQL texts of the rows of `s`, in order.
pub open spec fn row_texts(s: Seq<Vec<Expr>>, ctx: Context) -> Seq<Seq<char>>
    decreases s, 0int,
{
    Seq::new(
        s.len(),
        |i: int|
            if 0 <= i < s.len() {
                row_text(s[i], ctx)
            } else {
                Seq::empty()
            },
    )
}

/// Whether an `ORDER BY` expression is well formed.
pub open spec fn order_by_expr_wf(o: OrderByExpr) -> bool
    decreases o, 1int,
{
    expr_wf(o.expr)
}

/// Whether a table alias is well formed.
pub open spec fn table_alias_wf(a: TableAlias) -> bool {
    a.name.well_formed() && idents_wf(a.columns@)
}

/// The alias, where there is one, is well formed.
pub open spec fn optional_alias_wf(a: Option<TableAlias>) -> bool {
    match a {
        Some(alias) => table_alias_wf(alias),
        None => true,
    }
}

/// Whether a common table expression is well formed.
pub open spec fn cte_wf(c: Cte) -> bool
    decreases c, 1int,
{
    table_alias_wf(c.alias) && query_wf(c.query) && match c.from {
        Some(id) => id.well_formed(),
        None => true,
    }
}

/// Whether a `WITH` clause is well formed.
pub open spec fn with_wf(w: With) -> bool
    decreases w, 1int,
{
    ctes_wf(w.cte_tables@)
}

/// Whether an item of a projection is well formed.
pub open spec fn select_item_wf(item: SelectItem) -> bool
    decreases item, 1int,
{
    match item {
        SelectItem::UnnamedExpr(e) => expr_wf(e),
        SelectItem::ExprWithAlias { expr, alias } => expr_wf(expr) && alias.well_formed(),
        SelectItem::QualifiedWildcard(prefix) => prefix.well_formed(),
        SelectItem::Wildcard => true,
    }
}

/// Whether a join's condition is well formed.
pub open spec fn join_constraint_wf(c: JoinConstraint) -> bool
    decreases c, 1int,
{
    match c {
        JoinConstraint::On(e) => expr_wf(e),
        JoinConstraint::Using(attrs) => idents_wf(attrs@),
        _ => true,
    }
}

/// Whether a join is well formed.
pub open spec fn join_wf(j: Join) -> bool
    decreases j, 2int,
{
    table_factor_wf(j.relation) && match j.join_operator {
        JoinOperator::Inner(c) => join_constraint_wf(c),
        JoinOperator::LeftOuter(c) => join_constraint_wf(c),
        JoinOperator::RightOuter(c) => join_constraint_wf(c),
        JoinOperator::FullOuter(c) => join_constraint_wf(c),
        _ => true,
    }
}

/// Whether a table factor is well formed.
pub open spec fn table_factor_wf(t: TableFactor) -> bool
    decreases t, 1int,
{
    match t {
        TableFactor::Table { name, alias, args, with_hints } => name.well_formed()
            && function_args_wf(args@) && optional_alias_wf(alias) && exprs_wf(with_hints@),
        TableFactor::Derived { lateral, subquery, alias } => query_wf(*subquery)
            && optional_alias_wf(alias),
        TableFactor::TableFunction { expr, alias } => expr_wf(expr) && optional_alias_wf(alias),
        TableFactor::NestedJoin(inner) => table_with_joins_wf(*inner),
    }
}

/// Whether a table with its joins is well formed.
pub open spec fn table_with_joins_wf(t: TableWithJoins) -> bool
    decreases t, 1int,
{
    table_factor_wf(t.relation) && joins_wf(t.joins@)
}

/// Whether a lateral view is well formed.
pub open spec fn lateral_view_wf(v: LateralView) -> bool
    decreases v, 1int,
{
    expr_wf(v.lateral_view) && v.lateral_view_name.well_formed() && idents_wf(
        v.lateral_col_alias@,
    )
}

/// Whether a `TOP` clause is well formed.
pub open spec fn top_wf(t: Top) -> bool
    decreases t, 1int,
{
    optional_expr_wf(t.quantity)
}

/// Whether a `FETCH` clause is well formed.
pub open spec fn fetch_wf(t: Fetch) -> bool
    decreases t, 1int,
{
    optional_expr_wf(t.quantity)
}

/// Whether an `OFFSET` clause is well formed.
pub open spec fn offset_wf(o: Offset) -> bool
    decreases o, 1int,
{
    expr_wf(o.value)
}

/// Whether a row of a `VALUES` list is well formed.
pub open spec fn row_wf(row: Vec<Expr>) -> bool
    decreases row, 1int,
{
    exprs_wf(row@)
}

/// Whether a `VALUES` list is well formed.
pub open spec fn values_wf(v: Values) -> bool
    decreases v, 1int,
{
    rows_wf(v.0@)
}

/// Whether a `SELECT` is well formed.
pub open spec fn select_wf(s: Select) -> bool
    decreases s, 2int,
{
    &&& match s.top {
        Some(t) => top_wf(t),
        None => true,
    }
    &&& select_items_wf(s.projection@)
    &&& tables_with_joins_wf(s.from@)
    &&& lateral_views_wf(s.lateral_views@)
    &&& optional_expr_wf(s.selection)
    &&& exprs_wf(s.group_by@)
    &&& exprs_wf(s.cluster_by@)
    &&& exprs_wf(s.distribute_by@)
    &&& exprs_wf(s.sort_by@)
    &&& optional_expr_wf(s.having)
}

/// Whether a query body is well formed.
pub open spec fn set_expr_wf(s: SetExpr) -> bool
    decreases s, 1int,
{
    match s {
        SetExpr::Select(sel) => select_wf(*sel),
        SetExpr::Query(q) => query_wf(*q),
        SetExpr::Values(v) => values_wf(v),
        SetExpr::Insert(stmt) => statement_wf(stmt),
        SetExpr::SetOperation { op, all, left, right } => set_expr_wf(*left) && set_expr_wf(*right),
    }
}

/// Whether a query meets the structural invariants that rendering relies on.
pub open spec fn query_wf(q: Query) -> bool
    decreases q, 1int,
{
    &&& match q.with {
        Some(w) => with_wf(w),
        None => true,
    }
    &&& set_expr_wf(q.body)
    &&& order_by_exprs_wf(q.order_by@)
    &&& optional_expr_wf(q.limit)
    &&& match q.offset {
        Some(o) => offset_wf(o),
        None => true,
    }
    &&& match q.fetch {
        Some(t) => fetch_wf(t),
        None => true,
    }
}

/// Every `ORDER BY` expression of `s` is well formed.
pub open spec fn order_by_exprs_wf(s: Seq<OrderByExpr>) -> bool
    decreases s, 0int,
{
    forall|i: int| 0 <= i < s.len() ==> order_by_expr_wf(#[trigger] s[i])
}

/// Every common table expression of `s` is well formed.
pub open spec fn ctes_wf(s: Seq<Cte>) -> bool
    decreases s, 0int,
{
    forall|i: int| 0 <= i < s.len() ==> cte_wf(#[trigger] s[i])
}

/// Every projection item of `s` is well formed.
pub open spec fn select_items_wf(s: Seq<SelectItem>) -> bool
    decreases s, 0int,
{
    forall|i: int| 0 <= i < s.len() ==> select_item_wf(#[trigger] s[i])
}

/// Every join of `s` is well formed.
pub open spec fn joins_wf(s: Seq<Join>) -> bool
    decreases s, 0int,
{
    forall|i: int| 0 <= i < s.len() ==> join_wf(#[trigger] s[i])
}

/// Every table of `s` is well formed.
pub open spec fn tables_with_joins_wf(s: Seq<TableWithJoins>) -> bool
    decreases s, 0int,
{
    forall|i: int| 0 <= i < s.len() ==> table_with_joins_wf(#[trigger] s[i])
}

/// Every lateral view of `s` is well formed.
pub open spec fn lateral_views_wf(s: Seq<LateralView>) -> bool
    decreases s, 0int,
{
    forall|i: int| 0 <= i < s.len() ==> lateral_view_wf(#[trigger] s[i])
}

/// Every row of `s` is well formed.
pub open spec fn rows_wf(s: Seq<Vec<Expr>>) -> bool
    decreases s, 0int,
{
    forall|i: int| 0 <= i < s.len() ==> row_wf(#[trigger] s[i])
}

/// Appends the text of an `ORDER BY` expression.
pub fn write_order_by_expr(o: &OrderByExpr, f: &mut String, ctx: &RenderContext)
    requires
        order_by_expr_wf(*o),
    ensures
        final(f)@ == appended(old(f)@, order_by_expr_text(*o, ctx@)),
    decreases o, 1int,
{
    write_expr(&o.expr, f, ctx);
    match o.asc {
        Some(true) => put(f, " ASC"),
        Some(false) => put(f, " DESC"),
        None => {},
    }
    match o.nulls_first {
        Some(true) => put(f, " NULLS FIRST"),
        Some(false) => put(f, " NULLS LAST"),
        None => {},
    }
}

/// Appends the text of a table alias.
pub fn write_table_alias(a: &TableAlias, f: &mut String, ctx: &RenderContext)
    requires
        table_alias_wf(*a),
    ensures
        final(f)@ == appended(old(f)@, table_alias_text(*a, ctx@)),
{
    write_ident(&a.name, f, ctx);
    if a.columns.len() > 0 {
        put(f, " (");
        write_idents(&a.columns, ", ", f, ctx);
        put(f, ")");
    }
}

/// Appends ` AS ` and the alias, where there is one.
pub fn write_optional_alias(a: &Option<TableAlias>, f: &mut String, ctx: &RenderContext)
    requires
        optional_alias_wf(*a),
    ensures
        final(f)@ == appended(old(f)@, optional_alias_text(*a, ctx@)),
{
    if let Some(alias) = a {
        put(f, " AS ");
        write_table_alias(alias, f, ctx);
    }
}

/// Appends the text of a common table expression.
pub fn write_cte(c: &Cte, f: &mut String, ctx: &RenderContext)
    requires
        cte_wf(*c),
    ensures
        final(f)@ == appended(old(f)@, cte_text(*c, ctx@)),
    decreases c, 1int,
{
    write_table_alias(&c.alias, f, ctx);
    put(f, " AS (");
    write_query(&c.query, f, ctx);
    put(f, ")");
    if let Some(id) = &c.from {
        put(f, " FROM ");
        write_ident(id, f, ctx);
    }
}

/// Appends the text of a `WITH` clause.
pub fn write_with(w: &With, f: &mut String, ctx: &RenderContext)
    requires
        with_wf(*w),
    ensures
        final(f)@ == appended(old(f)@, with_text(*w, ctx@)),
    decreases w, 1int,
{
    put(f, "WITH ");
    write_flag(f, w.recursive, "RECURSIVE ");
    write_ctes(&w.cte_tables, ", ", f, ctx);
}

/// Appends the text of one item of a projection.
pub fn write_select_item(item: &SelectItem, f: &mut String, ctx: &RenderContext)
    requires
        select_item_wf(*item),
    ensures
        final(f)@ == appended(old(f)@, select_item_text(*item, ctx@)),
    decreases item, 1int,
{
    match item {
        SelectItem::UnnamedExpr(e) => write_expr(e, f, ctx),
        SelectItem::ExprWithAlias { expr, alias } => {
            write_expr(expr, f, ctx);
            put(f, " AS ");
            write_ident(alias, f, ctx);
        },
        SelectItem::QualifiedWildcard(prefix) => {
            write_object_name(prefix, f, ctx);
            put(f, ".*");
        },
        SelectItem::Wildcard => put(f, "*"),
    }
}

fn write_join_prefix(c: &JoinConstraint, f: &mut String)
    ensures
        final(f)@ == appended(old(f)@, join_prefix_text(*c)),
{
    if let JoinConstraint::Natural = c {
        put(f, "NATURAL ");
    }
}

fn write_join_suffix(c: &JoinConstraint, f: &mut String, ctx: &RenderContext)
    requires
        join_constraint_wf(*c),
    ensures
        final(f)@ == appended(old(f)@, join_suffix_text(*c, ctx@)),
    decreases c, 1int,
{
    match c {
        JoinConstraint::On(e) => {
            put(f, " ON ");
            write_expr(e, f, ctx);
        },
        JoinConstraint::Using(attrs) => {
            put(f, " USING(");
            write_idents(attrs, ", ", f, ctx);
            put(f, ")");
        },
        _ => {},
    }
}

/// Appends the text of a join.
pub fn write_join(j: &Join, f: &mut String, ctx: &RenderContext)
    requires
        join_wf(*j),
    ensures
        final(f)@ == appended(old(f)@, join_text(*j, ctx@)),
    decreases j, 2int,
{
    match &j.join_operator {
        JoinOperator::Inner(c) => {
            put(f, " ");
            write_join_prefix(c, f);
            put(f, "JOIN ");
            write_table_factor(&j.relation, f, ctx);
            write_join_suffix(c, f, ctx);
        },
        JoinOperator::LeftOuter(c) => {
            put(f, " ");
            write_join_prefix(c, f);
            put(f, "LEFT JOIN ");
            write_table_factor(&j.relation, f, ctx);
            write_join_suffix(c, f, ctx);
        },
        JoinOperator::RightOuter(c) => {
            put(f, " ");
            write_join_prefix(c, f);
            put(f, "RIGHT JOIN ");
            write_table_factor(&j.relation, f, ctx);
            write_join_suffix(c, f, ctx);
        },
        JoinOperator::FullOuter(c) => {
            put(f, " ");
            write_join_prefix(c, f);
            put(f, "FULL JOIN ");
            write_table_factor(&j.relation, f, ctx);
            write_join_suffix(c, f, ctx);
        },
        JoinOperator::CrossJoin => {
            put(f, " CROSS JOIN ");
            write_table_factor(&j.relation, f, ctx);
        },
        JoinOperator::CrossApply => {
            put(f, " CROSS APPLY ");
            write_table_factor(&j.relation, f, ctx);
        },
        JoinOperator::OuterApply => {
            put(f, " OUTER APPLY ");
            write_table_factor(&j.relation, f, ctx);
        },
    }
}

/// Appends the text of a table factor.
pub fn write_table_factor(t: &TableFactor, f: &mut String, ctx: &RenderContext)
    requires
        table_factor_wf(*t),
    ensures
        final(f)@ == appended(old(f)@, table_factor_text(*t, ctx@)),
    decreases t, 1int,
{
    match t {
        TableFactor::Table { name, alias, args, with_hints } => {
            write_object_name(name, f, ctx);
            if args.len() > 0 {
                put(f, "(");
                write_function_args(args, ", ", f, ctx);
                put(f, ")");
            }
            write_optional_alias(alias, f, ctx);
            if with_hints.len() > 0 {
                put(f, " WITH (");
                write_exprs(with_hints, ", ", f, ctx);
                put(f, ")");
            }
        },
        TableFactor::Derived { lateral, subquery, alias } => {
            write_flag(f, *lateral, "LATERAL ");
            put(f, "(");
            write_query(subquery, f, ctx);
            put(f, ")");
            write_optional_alias(alias, f, ctx);
        },
        TableFactor::TableFunction { expr, alias } => {
            put(f, "TABLE(");
            write_expr(expr, f, ctx);
            put(f, ")");
            write_optional_alias(alias, f, ctx);
        },
        TableFactor::NestedJoin(inner) => {
            put(f, "(");
            write_table_with_joins(inner, f, ctx);
            put(f, ")");
        },
    }
}

/// Appends the text of a table with the joins that follow it.
pub fn write_table_with_joins(t: &TableWithJoins, f: &mut String, ctx: &RenderContext)
    requires
        table_with_joins_wf(*t),
    ensures
        final(f)@ == appended(old(f)@, table_with_joins_text(*t, ctx@)),
    decreases t, 1int,
{
    write_table_factor(&t.relation, f, ctx);
    proof {
        lemma_empty_literal();
    }
    write_joins(&t.joins, "", f, ctx);
}

/// Appends the text of a lateral view.
pub fn write_lateral_view(v: &LateralView, f: &mut String, ctx: &RenderContext)
    requires
        lateral_view_wf(*v),
    ensures
        final(f)@ == appended(old(f)@, lateral_view_text(*v, ctx@)),
    decreases v, 1int,
{
    put(f, " LATERAL VIEW");
    write_flag(f, v.outer, " OUTER");
    put(f, " ");
    write_expr(&v.lateral_view, f, ctx);
    put(f, " ");
    write_object_name(&v.lateral_view_name, f, ctx);
    if v.lateral_col_alias.len() > 0 {
        put(f, " AS ");
        write_idents(&v.lateral_col_alias, ", ", f, ctx);
    }
}

/// Appends the text of a `TOP` clause.
pub fn write_top(t: &Top, f: &mut String, ctx: &RenderContext)
    requires
        top_wf(*t),
    ensures
        final(f)@ == appended(old(f)@, top_text(*t, ctx@)),
    decreases t, 1int,
{
    if let Some(q) = &t.quantity {
        put(f, "TOP (");
        write_expr(q, f, ctx);
        put(f, ")");
        write_flag(f, t.percent, " PERCENT");
        write_flag(f, t.with_ties, " WITH TIES");
    } else {
        put(f, "TOP");
        write_flag(f, t.with_ties, " WITH TIES");
    }
}

/// Appends the text of a `FETCH` clause.
pub fn write_fetch(t: &Fetch, f: &mut String, ctx: &RenderContext)
    requires
        fetch_wf(*t),
    ensures
        final(f)@ == appended(old(f)@, fetch_text(*t, ctx@)),
    decreases t, 1int,
{
    if let Some(q) = &t.quantity {
        put(f, "FETCH FIRST ");
        write_expr(q, f, ctx);
        write_flag(f, t.percent, " PERCENT");
        put(f, " ROWS ");
    } else {
        put(f, "FETCH FIRST ROWS ");
    }
    if t.with_ties {
        put(f, "WITH TIES");
    } else {
        put(f, "ONLY");
    }
}

/// Appends the text of an `OFFSET` clause.
pub fn write_offset(o: &Offset, f: &mut String, ctx: &RenderContext)
    requires
        offset_wf(*o),
    ensures
        final(f)@ == appended(old(f)@, offset_text(*o, ctx@)),
    decreases o, 1int,
{
    put(f, "OFFSET ");
    write_expr(&o.value, f, ctx);
    match o.rows {
        OffsetRows::Omitted => {},
        OffsetRows::Row => put(f, " ROW"),
        OffsetRows::Rows => put(f, " ROWS"),
    }
}

/// Appends the text of one row of a `VALUES` list.
pub fn write_row(row: &Vec<Expr>, f: &mut String, ctx: &RenderContext)
    requires
        row_wf(*row),
    ensures
        final(f)@ == appended(old(f)@, row_text(*row, ctx@)),
    decreases row, 1int,
{
    put(f, "(");
    write_exprs(row, ", ", f, ctx);
    put(f, ")");
}

/// Appends the text of a `VALUES` list.
pub fn write_values(v: &Values, f: &mut String, ctx: &RenderContext)
    requires
        values_wf(*v),
    ensures
        final(f)@ == appended(old(f)@, values_text(*v, ctx@)),
    decreases v, 1int,
{
    put(f, "VALUES ");
    write_rows(&v.0, ", ", f, ctx);
}

/// Appends `lead` and the expressions of `list` with commas between them,
/// where the list is not empty.
pub fn write_expr_clause(lead: &str, list: &Vec<Expr>, f: &mut String, ctx: &RenderContext)
    requires
        exprs_wf(list@),
    ensures
        final(f)@ == appended(old(f)@, expr_clause_text(lead@, *list, ctx@)),
    decreases list, 1int,
{
    if list.len() > 0 {
        put(f, lead);
        write_exprs(list, ", ", f, ctx);
    }
}

fn write_optional_top(top: &Option<Top>, f: &mut String, ctx: &RenderContext)
    requires
        top matches Some(t) ==> top_wf(*t),
    ensures
        final(f)@ == appended(old(f)@, optional_top_text(*top, ctx@)),
    decreases top, 2int,
{
    if let Some(t) = top {
        put(f, " ");
        write_top(t, f, ctx);
    }
}

fn write_from_clause(from: &Vec<TableWithJoins>, f: &mut String, ctx: &RenderContext)
    requires
        tables_with_joins_wf(from@),
    ensures
        final(f)@ == appended(old(f)@, from_clause_text(*from, ctx@)),
    decreases from, 1int,
{
    if from.len() > 0 {
        put(f, " FROM ");
        write_tables_with_joins(from, ", ", f, ctx);
    }
}

fn write_select_head(s: &Select, f: &mut String, ctx: &RenderContext)
    requires
        select_wf(*s),
    ensures
        final(f)@ == appended(old(f)@, select_head_text(*s, ctx@)),
    decreases s, 1int,
{
    put(f, "SELECT");
    write_flag(f, s.distinct, " DISTINCT");
    write_optional_top(&s.top, f, ctx);
    put(f, " ");
    write_select_items(&s.projection, ", ", f, ctx);
    write_from_clause(&s.from, f, ctx);
}

#[verifier::rlimit(50)]
fn write_select_tail(s: &Select, f: &mut String, ctx: &RenderContext)
    requires
        select_wf(*s),
    ensures
        final(f)@ == appended(old(f)@, select_tail_text(*s, ctx@)),
    decreases s, 1int,
{
    proof {
        lemma_empty_literal();
    }
    write_lateral_views(&s.lateral_views, "", f, ctx);
    write_optional_expr(" WHERE ", &s.selection, f, ctx);
    write_expr_clause(" GROUP BY ", &s.group_by, f, ctx);
    write_expr_clause(" CLUSTER BY ", &s.cluster_by, f, ctx);
    write_expr_clause(" DISTRIBUTE BY ", &s.distribute_by, f, ctx);
    write_expr_clause(" SORT BY ", &s.sort_by, f, ctx);
    write_optional_expr(" HAVING ", &s.having, f, ctx);
}

/// Appends the text of a `SELECT` without set operations and ordering.
pub fn write_select(s: &Select, f: &mut String, ctx: &RenderContext)
    requires
        select_wf(*s),
    ensures
        final(f)@ == appended(old(f)@, select_text(*s, ctx@)),
    decreases s, 2int,
{
    write_select_head(s, f, ctx);
    write_select_tail(s, f, ctx);
}

/// The keyword of a set operator.
pub fn set_operator_keyword(op: &SetOperator) -> (r: &'static str)
    ensures
        r@ == set_operator_text(*op),
{
    match op {
        SetOperator::Union => "UNION",
        SetOperator::Except => "EXCEPT",
        SetOperator::Intersect => "INTERSECT",
    }
}

/// Appends the text of a query body.
pub fn write_set_expr(s: &SetExpr, f: &mut String, ctx: &RenderContext)
    requires
        set_expr_wf(*s),
    ensures
        final(f)@ == appended(old(f)@, set_expr_text(*s, ctx@)),
    decreases s, 1int,
{
    match s {
        SetExpr::Select(sel) => write_select(sel, f, ctx),
        SetExpr::Query(q) => {
            put(f, "(");
            write_query(q, f, ctx);
            put(f, ")");
        },
        SetExpr::Values(v) => write_values(v, f, ctx),
        SetExpr::Insert(stmt) => write_statement(stmt, f, ctx),
        SetExpr::SetOperation { op, all, left, right } => {
            write_set_expr(left, f, ctx);
            put(f, " ");
            put(f, set_operator_keyword(op));
            write_flag(f, *all, " ALL");
            put(f, " ");
            write_set_expr(right, f, ctx);
        },
    }
}

fn write_optional_with(with: &Option<With>, f: &mut String, ctx: &RenderContext)
    requires
        with matches Some(w) ==> with_wf(*w),
    ensures
        final(f)@ == appended(old(f)@, optional_with_text(*with, ctx@)),
    decreases with, 2int,
{
    if let Some(w) = with {
        write_with(w, f, ctx);
        put(f, " ");
    }
}

/// Appends `lead` and the `ORDER BY` expressions of `list` with commas
/// between them, where the list is not empty.
pub fn write_order_by_clause(
    lead: &str,
    list: &Vec<OrderByExpr>,
    f: &mut String,
    ctx: &RenderContext,
)
    requires
        order_by_exprs_wf(list@),
    ensures
        final(f)@ == appended(old(f)@, order_by_clause_text(lead@, *list, ctx@)),
    decreases list, 1int,
{
    if list.len() > 0 {
        put(f, lead);
        write_order_by_exprs(list, ", ", f, ctx);
    }
}

fn write_optional_offset(offset: &Option<Offset>, f: &mut String, ctx: &RenderContext)
    requires
        offset matches Some(o) ==> offset_wf(*o),
    ensures
        final(f)@ == appended(old(f)@, optional_offset_text(*offset, ctx@)),
    decreases offset, 2int,
{
    if let Some(o) = offset {
        put(f, " ");
        write_offset(o, f, ctx);
    }
}

fn write_optional_fetch(fetch: &Option<Fetch>, f: &mut String, ctx: &RenderContext)
    requires
        fetch matches Some(t) ==> fetch_wf(*t),
    ensures
        final(f)@ == appended(old(f)@, optional_fetch_text(*fetch, ctx@)),
    decreases fetch, 2int,
{
    if let Some(t) = fetch {
        put(f, " ");
        write_fetch(t, f, ctx);
    }
}

/// Appends the SQL text of a query.
pub fn write_query(q: &Query, f: &mut String, ctx: &RenderContext)
    requires
        query_wf(*q),
    ensures
        final(f)@ == appended(old(f)@, query_text(*q, ctx@)),
    decreases q, 1int,
{
    write_optional_with(&q.with, f, ctx);
    write_set_expr(&q.body, f, ctx);
    write_order_by_clause(" ORDER BY ", &q.order_by, f, ctx);
    write_optional_expr(" LIMIT ", &q.limit, f, ctx);
    write_optional_offset(&q.offset, f, ctx);
    write_optional_fetch(&q.fetch, f, ctx);
}

/// Appends the `ORDER BY` expressions of `list` with `sep` between them.
#[verifier::loop_isolation(false)]
pub fn write_order_by_exprs(list: &Vec<OrderByExpr>, sep: &str, f: &mut String, ctx: &RenderContext)
    requires
        order_by_exprs_wf(list@),
    ensures
        final(f)@ == appended(old(f)@, separated(order_by_expr_texts(list@, ctx@), sep@)),
    decreases list, 0int,
{
    let ghost parts = order_by_expr_texts(list@, ctx@);
    proof {
        lemma_separated_none(parts, sep@);
    }
    let mut i: usize = 0;
    while i < list.len()
        invariant
            0 <= i <= list.len(),
            f@ == appended(old(f)@, separated(parts.take(i as int), sep@)),
        decreases list.len() - i,
    {
        if i > 0 {
            put(f, sep);
        }
        proof {
            axiom_vec_index_decreases(*list, i as int);
            lemma_separated_step(parts, sep@, i as int);
        }
        write_order_by_expr(&list[i], f, ctx);
        i = i + 1;
    }
    proof {
        lemma_separated_none(parts, sep@);
    }
}

/// Appends the common table expressions of `list` with `sep` between them.
#[verifier::loop_isolation(false)]
pub fn write_ctes(list: &Vec<Cte>, sep: &str, f: &mut String, ctx: &RenderContext)
    requires
        ctes_wf(list@),
    ensures
        final(f)@ == appended(old(f)@, separated(cte_texts(list@, ctx@), sep@)),
    decreases list, 0int,
{
    let ghost parts = cte_texts(list@, ctx@);
    proof {
        lemma_separated_none(parts, sep@);
    }
    let mut i: usize = 0;
    while i < list.len()
        invariant
            0 <= i <= list.len(),
            f@ == appended(old(f)@, separated(parts.take(i as int), sep@)),
        decreases list.len() - i,
    {
        if i > 0 {
            put(f, sep);
        }
        proof {
            axiom_vec_index_decreases(*list, i as int);
            lemma_separated_step(parts, sep@, i as int);
        }
        write_cte(&list[i], f, ctx);
        i = i + 1;
    }
    proof {
        lemma_separated_none(parts, sep@);
    }
}

/// Appends the projection items of `list` with `sep` between them.
#[verifier::loop_isolation(false)]
pub fn write_select_items(list: &Vec<SelectItem>, sep: &str, f: &mut String, ctx: &RenderContext)
    requires
        select_items_wf(list@),
    ensures
        final(f)@ == appended(old(f)@, separated(select_item_texts(list@, ctx@), sep@)),
    decreases list, 0int,
{
    let ghost parts = select_item_texts(list@, ctx@);
    proof {
        lemma_separated_none(parts, sep@);
    }
    let mut i: usize = 0;
    while i < list.len()
        invariant
            0 <= i <= list.len(),
            f@ == appended(old(f)@, separated(parts.take(i as int), sep@)),
        decreases list.len() - i,
    {
        if i > 0 {
            put(f, sep);
        }
        proof {
            axiom_vec_index_decreases(*list, i as int);
            lemma_separated_step(parts, sep@, i as int);
        }
        write_select_item(&list[i], f, ctx);
        i = i + 1;
    }
    proof {
        lemma_separated_none(parts, sep@);
    }
}

/// Appends the joins of `list` with `sep` between them.
#[verifier::loop_isolation(false)]
pub fn write_joins(list: &Vec<Join>, sep: &str, f: &mut String, ctx: &RenderContext)
    requires
        joins_wf(list@),
    ensures
        final(f)@ == appended(old(f)@, separated(join_texts(list@, ctx@), sep@)),
    decreases list, 0int,
{
    let ghost parts = join_texts(list@, ctx@);
    proof {
        lemma_separated_none(parts, sep@);
    }
    let mut i: usize = 0;
    while i < list.len()
        invariant
            0 <= i <= list.len(),
            f@ == appended(old(f)@, separated(parts.take(i as int), sep@)),
        decreases list.len() - i,
    {
        if i > 0 {
            put(f, sep);
        }
        proof {
            axiom_vec_index_decreases(*list, i as int);
            lemma_separated_step(parts, sep@, i as int);
        }
        write_join(&list[i], f, ctx);
        i = i + 1;
    }
    proof {
        lemma_separated_none(parts, sep@);
    }
}

/// Appends the tables of `list` with `sep` between them.
#[verifier::loop_isolation(false)]
pub fn write_tables_with_joins(
    list: &Vec<TableWithJoins>,
    sep: &str,
    f: &mut String,
    ctx: &RenderContext,
)
    requires
        tables_with_joins_wf(list@),
    ensures
        final(f)@ == appended(old(f)@, separated(table_with_joins_texts(list@, ctx@), sep@)),
    decreases list, 0int,
{
    let ghost parts = table_with_joins_texts(list@, ctx@);
    proof {
        lemma_separated_none(parts, sep@);
    }
    let mut i: usize = 0;
    while i < list.len()
        invariant
            0 <= i <= list.len(),
            f@ == appended(old(f)@, separated(parts.take(i as int), sep@)),
        decreases list.len() - i,
    {
        if i > 0 {
            put(f, sep);
        }
        proof {
            axiom_vec_index_decreases(*list, i as int);
            lemma_separated_step(parts, sep@, i as int);
        }
        write_table_with_joins(&list[i], f, ctx);
        i = i + 1;
    }
    proof {
        lemma_separated_none(parts, sep@);
    }
}

/// Appends the lateral views of `list` with `sep` between them.
#[verifier::loop_isolation(false)]
pub fn write_lateral_views(list: &Vec<LateralView>, sep: &str, f: &mut String, ctx: &RenderContext)
    requires
        lateral_views_wf(list@),
    ensures
        final(f)@ == appended(old(f)@, separated(lateral_view_texts(list@, ctx@), sep@)),
    decreases list, 0int,
{
    let ghost parts = lateral_view_texts(list@, ctx@);
    proof {
        lemma_separated_none(parts, sep@);
    }
    let mut i: usize = 0;
    while i < list.len()
        invariant
            0 <= i <= list.len(),
            f@ == appended(old(f)@, separated(parts.take(i as int), sep@)),
        decreases list.len() - i,
    {
        if i > 0 {
            put(f, sep);
        }
        proof {
            axiom_vec_index_decreases(*list, i as int);
            lemma_separated_step(parts, sep@, i as int);
        }
        write_lateral_view(&list[i], f, ctx);
        i = i + 1;
    }
    proof {
        lemma_separated_none(parts, sep@);
    }
}

/// Appends the rows of `list` with `sep` between them.
#[verifier::loop_isolation(false)]
pub fn write_rows(list: &Vec<Vec<Expr>>, sep: &str, f: &mut String, ctx: &RenderContext)
    requires
        rows_wf(list@),
    ensures
        final(f)@ == appended(old(f)@, separated(row_texts(list@, ctx@), sep@)),
    decreases list, 0int,
{
    let ghost parts = row_texts(list@, ctx@);
    proof {
        lemma_separated_none(parts, sep@);
    }
    let mut i: usize = 0;
    while i < list.len()
        invariant
            0 <= i <= list.len(),
            f@ == appended(old(f)@, separated(parts.take(i as int), sep@)),
        decreases list.len() - i,
    {
        if i > 0 {
            put(f, sep);
        }
        proof {
            axiom_vec_index_decreases(*list, i as int);
            lemma_separated_step(parts, sep@, i as int);
        }
        write_row(&list[i], f, ctx);
        i = i + 1;
    }
    proof {
        lemma_separated_none(parts, sep@);
    }
}

/// Whether an `ORDER BY` expression is well formed.
pub fn check_order_by_expr(o: &OrderByExpr) -> (r: bool)
    ensures
        r == order_by_expr_wf(*o),
    decreases o, 1int,
{
    check_expr(&o.expr)
}

/// Whether a table alias is well formed.
pub fn check_table_alias(a: &TableAlias) -> (r: bool)
    ensures
        r == table_alias_wf(*a),
{
    a.name.is_well_formed() && check_idents(&a.columns)
}

/// Whether the alias, where there is one, is well formed.
pub fn check_optional_alias(a: &Option<TableAlias>) -> (r: bool)
    ensures
        r == optional_alias_wf(*a),
{
    match a {
        Some(alias) => check_table_alias(alias),
        None => true,
    }
}

/// Whether a common table expression is well formed.
pub fn check_cte(c: &Cte) -> (r: bool)
    ensures
        r == cte_wf(*c),
    decreases c, 1int,
{
    check_table_alias(&c.alias) && check_query(&c.query) && match &c.from {
        Some(id) => id.is_well_formed(),
        None => true,
    }
}

/// Whether a `WITH` clause is well formed.
pub fn check_with(w: &With) -> (r: bool)
    ensures
        r == with_wf(*w),
    decreases w, 1int,
{
    check_ctes(&w.cte_tables)
}

/// Whether an item of a projection is well formed.
pub fn check_select_item(item: &SelectItem) -> (r: bool)
    ensures
        r == select_item_wf(*item),
    decreases item, 1int,
{
    match item {
        SelectItem::UnnamedExpr(e) => check_expr(e),
        SelectItem::ExprWithAlias { expr, alias } => check_expr(expr) && alias.is_well_formed(),
        SelectItem::QualifiedWildcard(prefix) => prefix.is_well_formed(),
        SelectItem::Wildcard => true,
    }
}

/// Whether a join's condition is well formed.
pub fn check_join_constraint(c: &JoinConstraint) -> (r: bool)
    ensures
        r == join_constraint_wf(*c),
    decreases c, 1int,
{
    match c {
        JoinConstraint::On(e) => check_expr(e),
        JoinConstraint::Using(attrs) => check_idents(attrs),
        _ => true,
    }
}

/// Whether a join is well formed.
pub fn check_join(j: &Join) -> (r: bool)
    ensures
        r == join_wf(*j),
    decreases j, 2int,
{
    check_table_factor(&j.relation) && match &j.join_operator {
        JoinOperator::Inner(c) => check_join_constraint(c),
        JoinOperator::LeftOuter(c) => check_join_constraint(c),
        JoinOperator::RightOuter(c) => check_join_constraint(c),
        JoinOperator::FullOuter(c) => check_join_constraint(c),
        _ => true,
    }
}

/// Whether a table factor is well formed.
pub fn check_table_factor(t: &TableFactor) -> (r: bool)
    ensures
        r == table_factor_wf(*t),
    decreases t, 1int,
{
    match t {
        TableFactor::Table { name, alias, args, with_hints } => name.is_well_formed()
            && check_function_args(args) && check_optional_alias(alias) && check_exprs(with_hints),
        TableFactor::Derived { lateral, subquery, alias } => check_query(subquery)
            && check_optional_alias(alias),
        TableFactor::TableFunction { expr, alias } => check_expr(expr) && check_optional_alias(
            alias,
        ),
        TableFactor::NestedJoin(inner) => check_table_with_joins(inner),
    }
}

/// Whether a table with its joins is well formed.
pub fn check_table_with_joins(t: &TableWithJoins) -> (r: bool)
    ensures
        r == table_with_joins_wf(*t),
    decreases t, 1int,
{
    check_table_factor(&t.relation) && check_joins(&t.joins)
}

/// Whether a lateral view is well formed.
pub fn check_lateral_view(v: &LateralView) -> (r: bool)
    ensures
        r == lateral_view_wf(*v),
    decreases v, 1int,
{
    check_expr(&v.lateral_view) && v.lateral_view_name.is_well_formed() && check_idents(
        &v.lateral_col_alias,
    )
}

/// Whether a row of a `VALUES` list is well formed.
pub fn check_row(row: &Vec<Expr>) -> (r: bool)
    ensures
        r == row_wf(*row),
    decreases row, 1int,
{
    check_exprs(row)
}

/// Whether a `VALUES` list is well formed.
pub fn check_values(v: &Values) -> (r: bool)
    ensures
        r == values_wf(*v),
    decreases v, 1int,
{
    check_rows(&v.0)
}

/// Whether a `SELECT` is well formed.
#[verifier::rlimit(50)]
pub fn check_select(s: &Select) -> (r: bool)
    ensures
        r == select_wf(*s),
    decreases s, 2int,
{
    (match &s.top {
        Some(t) => check_optional_expr(&t.quantity),
        None => true,
    }) && check_select_items(&s.projection) && check_tables_with_joins(&s.from)
        && check_lateral_views(&s.lateral_views) && check_optional_expr(&s.selection)
        && check_exprs(&s.group_by) && check_exprs(&s.cluster_by) && check_exprs(&s.distribute_by)
        && check_exprs(&s.sort_by) && check_optional_expr(&s.having)
}

/// Whether a query body is well formed.
pub fn check_set_expr(s: &SetExpr) -> (r: bool)
    ensures
        r == set_expr_wf(*s),
    decreases s, 1int,
{
    match s {
        SetExpr::Select(sel) => check_select(sel),
        SetExpr::Query(q) => check_query(q),
        SetExpr::Values(v) => check_values(v),
        SetExpr::Insert(stmt) => check_statement(stmt),
        SetExpr::SetOperation { op, all, left, right } => check_set_expr(left) && check_set_expr(
            right,
        ),
    }
}

/// Whether a query is well formed.
#[verifier::rlimit(50)]
pub fn check_query(q: &Query) -> (r: bool)
    ensures
        r == query_wf(*q),
    decreases q, 1int,
{
    (match &q.with {
        Some(w) => check_with(w),
        None => true,
    }) && check_set_expr(&q.body) && check_order_by_exprs(&q.order_by) && check_optional_expr(
        &q.limit,
    ) && (match &q.offset {
        Some(o) => check_expr(&o.value),
        None => true,
    }) && (match &q.fetch {
        Some(t) => check_optional_expr(&t.quantity),
        None => true,
    })
}

/// Whether every `ORDER BY` expression of `list` is well formed.
#[verifier::loop_isolation(false)]
pub fn check_order_by_exprs(list: &Vec<OrderByExpr>) -> (r: bool)
    ensures
        r == order_by_exprs_wf(list@),
    decreases list, 0int,
{
    let mut i: usize = 0;
    while i < list.len()
        invariant
            0 <= i <= list.len(),
            forall|j: int| 0 <= j < i ==> order_by_expr_wf((#[trigger] list@[j])),
        decreases list.len() - i,
    {
        proof {
            axiom_vec_index_decreases(*list, i as int);
        }
        if !check_order_by_expr(&list[i]) {
            return false;
        }
        i = i + 1;
    }
    true
}

/// Whether every common table expression of `list` is well formed.
#[verifier::loop_isolation(false)]
pub fn check_ctes(list: &Vec<Cte>) -> (r: bool)
    ensures
        r == ctes_wf(list@),
    decreases list, 0int,
{
    let mut i: usize = 0;
    while i < list.len()
        invariant
            0 <= i <= list.len(),
            forall|j: int| 0 <= j < i ==> cte_wf((#[trigger] list@[j])),
        decreases list.len() - i,
    {
        proof {
            axiom_vec_index_decreases(*list, i as int);
        }
        if !check_cte(&list[i]) {
            return false;
        }
        i = i + 1;
    }
    true
}

/// Whether every projection item of `list` is well formed.
#[verifier::loop_isolation(false)]
pub fn check_select_items(list: &Vec<SelectItem>) -> (r: bool)
    ensures
        r == select_items_wf(list@),
    decreases list, 0int,
{
    let mut i: usize = 0;
    while i < list.len()
        invariant
            0 <= i <= list.len(),
            forall|j: int| 0 <= j < i ==> select_item_wf((#[trigger] list@[j])),
        decreases list.len() - i,
    {
        proof {
            axiom_vec_index_decreases(*list, i as int);
        }
        if !check_select_item(&list[i]) {
            return false;
        }
        i = i + 1;
    }
    true
}

/// Whether every join of `list` is well formed.
#[verifier::loop_isolation(false)]
pub fn check_joins(list: &Vec<Join>) -> (r: bool)
    ensures
        r == joins_wf(list@),
    decreases list, 0int,
{
    let mut i: usize = 0;
    while i < list.len()
        invariant
            0 <= i <= list.len(),
            forall|j: int| 0 <= j < i ==> join_wf((#[trigger] list@[j])),
        decreases list.len() - i,
    {
        proof {
            axiom_vec_index_decreases(*list, i as int);
        }
        if !check_join(&list[i]) {
            return false;
        }
        i = i + 1;
    }
    true
}

/// Whether every table of `list` is well formed.
#[verifier::loop_isolation(false)]
pub fn check_tables_with_joins(list: &Vec<TableWithJoins>) -> (r: bool)
    ensures
        r == tables_with_joins_wf(list@),
    decreases list, 0int,
{
    let mut i: usize = 0;
    while i < list.len()
        invariant
            0 <= i <= list.len(),
            forall|j: int| 0 <= j < i ==> table_with_joins_wf((#[trigger] list@[j])),
        decreases list.len() - i,
    {
        proof {
            axiom_vec_index_decreases(*list, i as int);
        }
        if !check_table_with_joins(&list[i]) {
            return false;
        }
        i = i + 1;
    }
    true
}

/// Whether every lateral view of `list` is well formed.
#[verifier::loop_isolation(false)]
pub fn check_lateral_views(list: &Vec<LateralView>) -> (r: bool)
    ensures
        r == lateral_views_wf(list@),
    decreases list, 0int,
{
    let mut i: usize = 0;
    while i < list.len()
        invariant
            0 <= i <= list.len(),
            forall|j: int| 0 <= j < i ==> lateral_view_wf((#[trigger] list@[j])),
        decreases list.len() - i,
    {
        proof {
            axiom_vec_index_decreases(*list, i as int);
        }
        if !check_lateral_view(&list[i]) {
            return false;
        }
        i = i + 1;
    }
    true
}

/// Whether every row of `list` is well formed.
#[verifier::loop_isolation(false)]
pub fn check_rows(list: &Vec<Vec<Expr>>) -> (r: bool)
    ensures
        r == rows_wf(list@),
    decreases list, 0int,
{
    let mut i: usize = 0;
    while i < list.len()
        invariant
            0 <= i <= list.len(),
            forall|j: int| 0 <= j < i ==> row_wf((#[trigger] list@[j])),
        decreases list.len() - i,
    {
        proof {
            axiom_vec_index_decreases(*list, i as int);
        }
        if !check_row(&list[i]) {
            return false;
        }
        i = i + 1;
    }
    true
}
} // verus!
