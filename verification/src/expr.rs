//! Expressions and their text.

use vstd::prelude::*;
use vstd::std_specs::vec::axiom_vec_index_decreases;
use crate::context::Context;
use crate::context::RenderContext;
use crate::data_type::DataType;
use crate::data_type::check_data_type;
use crate::data_type::data_type_text;
use crate::data_type::data_type_wf;
use crate::data_type::write_data_type;
use crate::ident::Ident;
use crate::ident::ObjectName;
use crate::ident::check_idents;
use crate::ident::ident_text;
use crate::ident::ident_texts;
use crate::ident::idents_wf;
use crate::ident::object_name_text;
use crate::ident::write_ident;
use crate::ident::write_idents;
use crate::ident::write_object_name;
use crate::operator::BinaryOperator;
use crate::operator::UnaryOperator;
use crate::operator::binary_operator_symbol;
use crate::operator::binary_operator_text;
use crate::operator::unary_operator_symbol;
use crate::operator::unary_operator_text;
use crate::query::OrderByExpr;
use crate::query::Query;
use crate::query::check_order_by_exprs;
use crate::query::check_query;
use crate::query::order_by_expr_texts;
use crate::query::order_by_exprs_wf;
use crate::query::query_text;
use crate::query::query_wf;
use crate::query::write_order_by_exprs;
use crate::query::write_query;
use crate::text::appended;
use crate::text::concatenated;
use crate::text::decimal;
use crate::text::escaped;
use crate::text::flag_text;
use crate::text::lemma_separated_none;
use crate::text::lemma_separated_step;
use crate::text::put;
use crate::text::separated;
use crate::text::write_decimal;
use crate::text::write_escaped;
use crate::text::write_flag;
use crate::value::DateTimeField;
use crate::value::Value;
use crate::value::check_value;
use crate::value::date_time_field_keyword;
use crate::value::date_time_field_text;
use crate::value::value_text;
use crate::value::value_wf;
use crate::value::write_value;

verus! {

broadcast use crate::text::group_sink;

/// An SQL expression of any type.
#[allow(inconsistent_fields)]
#[derive(Debug, PartialEq, Eq, Hash)]
pub enum Expr {
    /// Identifier e.g. table name or column name.
    Identifier(Ident),
    /// Unqualified wildcard (`*`).
    Wildcard,
    /// Qualified wildcard, e.g. `alias.*` or `schema.table.*`.
    QualifiedWildcard(Vec<Ident>),
    /// Multi-part identifier, e.g. `table_alias.column` or `schema.table.col`.
    CompoundIdentifier(Vec<Ident>),
    /// `IS NULL` expression.
    IsNull(Box<Expr>),
    /// `IS NOT NULL` expression.
    IsNotNull(Box<Expr>),
    /// `[ NOT ] IN (val1, val2, ...)`.
    InList { expr: Box<Expr>, list: Vec<Expr>, negated: bool },
    /// `[ NOT ] IN (SELECT ...)`.
    InSubquery { expr: Box<Expr>, subquery: Box<Query>, negated: bool },
    /// `<expr> [ NOT ] BETWEEN <low> AND <high>`.
    Between { expr: Box<Expr>, negated: bool, low: Box<Expr>, high: Box<Expr> },
    /// Binary operation e.g. `1 + 1` or `foo > bar`.
    BinaryOp { left: Box<Expr>, op: BinaryOperator, right: Box<Expr> },
    /// Unary operation e.g. `NOT foo`.
    UnaryOp { op: UnaryOperator, expr: Box<Expr> },
    /// CAST an expression to a different data type e.g. `CAST(foo AS VARCHAR(123))`.
    Cast { expr: Box<Expr>, data_type: DataType },
    /// TRY_CAST an expression to a different data type. It has no text.
    TryCast { expr: Box<Expr>, data_type: DataType },
    /// EXTRACT(DateTimeField FROM <expr>).
    Extract { field: DateTimeField, expr: Box<Expr> },
    /// SUBSTRING(<expr> [FROM <expr>] [FOR <expr>]).
    Substring {
        expr: Box<Expr>,
        substring_from: Option<Box<Expr>>,
        substring_for: Option<Box<Expr>>,
    },
    /// `expr COLLATE collation`.
    Collate { expr: Box<Expr>, collation: ObjectName },
    /// Nested expression e.g. `(foo > bar)` or `(1)`.
    Nested(Box<Expr>),
    /// A literal value, such as string, number, date or NULL.
    Value(Value),
    /// A constant of form `<data_type> 'value'`.
    TypedString { data_type: DataType, value: String },
    /// Access of a map column by a string key, e.g. `column["key"]`.
    MapAccess { column: Box<Expr>, key: String },
    /// Scalar function call e.g. `LEFT(foo, 5)`.
    Function(Function),
    /// `CASE [<operand>] WHEN <condition> THEN <result> ... [ELSE <result>] END`.
    Case {
        operand: Option<Box<Expr>>,
        conditions: Vec<Expr>,
        results: Vec<Expr>,
        else_result: Option<Box<Expr>>,
    },
    /// An exists expression `EXISTS(SELECT ...)`, used in expressions like
    /// `WHERE EXISTS (SELECT ...)`.
    Exists(Box<Query>),
    /// A parenthesized subquery `(SELECT ...)`, used in expression like
    /// `SELECT (subquery) AS x` or `WHERE (subquery) = x`.
    Subquery(Box<Query>),
    /// The `LISTAGG` function `SELECT LISTAGG(...) WITHIN GROUP (ORDER BY ...)`.
    ListAgg(ListAgg),
    /// The mark of a statement parameter, as written. It has no text.
    ParameterMark(String),
}

/// A window specification (i.e. `OVER (PARTITION BY .. ORDER BY .. etc.)`).
#[derive(Debug, PartialEq, Eq, Hash)]
pub struct WindowSpec {
    pub partition_by: Vec<Expr>,
    pub order_by: Vec<OrderByExpr>,
    pub window_frame: Option<WindowFrame>,
}

/// Specifies the data processed by a window function, e.g.
/// `RANGE UNBOUNDED PRECEDING` or `ROWS BETWEEN 5 PRECEDING AND CURRENT ROW`.
/// Whether the bounds make sense together is the caller's concern.
#[derive(Debug, Clone, PartialEq, Eq, Hash)]
pub struct WindowFrame {
    pub units: WindowFrameUnits,
    pub start_bound: WindowFrameBound,
    /// The right bound of the `BETWEEN .. AND` clause. The end bound of `None`
    /// indicates the shorthand form (e.g. `ROWS 1 PRECEDING`), which must
    /// behave the same as `end_bound = WindowFrameBound::CurrentRow`.
    pub end_bound: Option<WindowFrameBound>,
}

/// The unit in which a window frame counts.
#[derive(Debug, Clone, Copy, PartialEq, Eq, Hash)]
pub enum WindowFrameUnits {
    Rows,
    Range,
    Groups,
}

/// Specifies a window frame's `start_bound` and `end_bound`.
#[derive(Debug, Clone, Copy, PartialEq, Eq, Hash)]
pub enum WindowFrameBound {
    /// `CURRENT ROW`.
    CurrentRow,
    /// `<N> PRECEDING` or `UNBOUNDED PRECEDING`.
    Preceding(Option<u64>),
    /// `<N> FOLLOWING` or `UNBOUNDED FOLLOWING`.
    Following(Option<u64>),
}

/// An argument of a function call.
#[allow(inconsistent_fields)]
#[derive(Debug, PartialEq, Eq, Hash)]
pub enum FunctionArg {
    Named { name: Ident, arg: Expr },
    Unnamed(Expr),
}

/// A function call.
#[derive(Debug, PartialEq, Eq, Hash)]
pub struct Function {
    pub name: ObjectName,
    pub args: Vec<FunctionArg>,
    pub over: Option<WindowSpec>,
    /// Aggregate functions may specify e.g. `COUNT(DISTINCT x)`.
    pub distinct: bool,
}

/// A `LISTAGG` invocation `LISTAGG( [ DISTINCT ] <expr>[, <separator> ] [ON OVERFLOW <on_overflow>] )
/// [ WITHIN GROUP (ORDER BY <within_group1>[, ...] ) ]`.
#[derive(Debug, PartialEq, Eq, Hash)]
pub struct ListAgg {
    pub distinct: bool,
    pub expr: Box<Expr>,
    pub separator: Option<Box<Expr>>,
    pub on_overflow: Option<ListAggOnOverflow>,
    pub within_group: Vec<OrderByExpr>,
}

/// The `ON OVERFLOW` clause of a LISTAGG invocation.
#[allow(inconsistent_fields)]
#[derive(Debug, PartialEq, Eq, Hash)]
pub enum ListAggOnOverflow {
    /// `ON OVERFLOW ERROR`.
    Error,
    /// `ON OVERFLOW TRUNCATE [ <filler> ] WITH[OUT] COUNT`.
    Truncate { filler: Option<Box<Expr>>, with_count: bool },
}

/// The SQL texts of the expressions of `s`, in order.
pub open spec fn expr_texts(s: Seq<Expr>, ctx: Context) -> Seq<Seq<char>>
    decreases s, 0int,
{
    Seq::new(
        s.len(),
        |i: int|
            if 0 <= i < s.len() {
                expr_text(s[i], ctx)
            } else {
                Seq::empty()
            },
    )
}

/// `lead` and the text of the expression, or nothing where there is none.
pub open spec fn optional_expr_text(lead: Seq<char>, e: Option<Expr>, ctx: Context) -> Seq<char>
    decreases e, 3int,
{
    match e {
        Some(x) => lead + expr_text(x, ctx),
        None => Seq::empty(),
    }
}

/// `lead` and the text of the expression, or nothing where there is none.
pub open spec fn optional_boxed_expr_text(
    lead: Seq<char>,
    e: Option<Box<Expr>>,
    ctx: Context,
) -> Seq<char>
    decreases e, 3int,
{
    match e {
        Some(x) => lead + expr_text(*x, ctx),
        None => Seq::empty(),
    }
}

/// The `WHEN .. THEN ..` arms of a `CASE` expression, one for each condition
/// that has a result.
pub open spec fn case_arm_texts(e: Expr, ctx: Context) -> Seq<Seq<char>>
    decreases e, 1int,
{
    match e {
        Expr::Case { operand, conditions, results, else_result } => {
            let n = if conditions@.len() <= results@.len() {
                conditions@.len()
            } else {
                results@.len()
            };
            Seq::new(
                n,
                |i: int|
                    if 0 <= i < n {
                        " WHEN "@ + expr_text(conditions@[i], ctx) + " THEN "@ + expr_text(
                            results@[i],
                            ctx,
                        )
                    } else {
                        Seq::empty()
                    },
            )
        },
        _ => Seq::empty(),
    }
}

/// The SQL text of an expression. A `TRY_CAST` and a parameter mark have
/// none.
pub open spec fn expr_text(e: Expr, ctx: Context) -> Seq<char>
    decreases e, 2int,
{
    match e {
        Expr::Identifier(id) => ident_text(id, ctx),
        Expr::MapAccess { column, key } => expr_text(*column, ctx) + "[\""@ + key@ + "\"]"@,
        Expr::Wildcard => "*"@,
        Expr::QualifiedWildcard(q) => separated(ident_texts(q@, ctx), "."@) + ".*"@,
        Expr::CompoundIdentifier(parts) => separated(ident_texts(parts@, ctx), "."@),
        Expr::IsNull(inner) => expr_text(*inner, ctx) + " IS NULL"@,
        Expr::IsNotNull(inner) => expr_text(*inner, ctx) + " IS NOT NULL"@,
        Expr::InList { expr, list, negated } => expr_text(*expr, ctx) + " "@ + flag_text(
            negated,
            "NOT "@,
        ) + "IN ("@ + separated(expr_texts(list@, ctx), ", "@) + ")"@,
        Expr::InSubquery { expr, subquery, negated } => expr_text(*expr, ctx) + " "@ + flag_text(
            negated,
            "NOT "@,
        ) + "IN ("@ + query_text(*subquery, ctx) + ")"@,
        Expr::Between { expr, negated, low, high } => expr_text(*expr, ctx) + " "@ + flag_text(
            negated,
            "NOT "@,
        ) + "BETWEEN "@ + expr_text(*low, ctx) + " AND "@ + expr_text(*high, ctx),
        Expr::BinaryOp { left, op, right } => expr_text(*left, ctx) + " "@ + binary_operator_text(
            op,
        ) + " "@ + expr_text(*right, ctx),
        Expr::UnaryOp { op, expr } => if op == UnaryOperator::PGPostfixFactorial {
            expr_text(*expr, ctx) + unary_operator_text(op)
        } else {
            unary_operator_text(op) + " "@ + expr_text(*expr, ctx)
        },
        Expr::Cast { expr, data_type } => "CAST("@ + expr_text(*expr, ctx) + " AS "@
            + data_type_text(data_type, ctx) + ")"@,
        Expr::TryCast { expr, data_type } => Seq::empty(),
        Expr::Extract { field, expr } => "EXTRACT("@ + date_time_field_text(field) + " FROM "@
            + expr_text(*expr, ctx) + ")"@,
        Expr::Collate { expr, collation } => expr_text(*expr, ctx) + " COLLATE "@
            + object_name_text(collation, ctx),
        Expr::Nested(inner) => "("@ + expr_text(*inner, ctx) + ")"@,
        Expr::Value(v) => value_text(v),
        Expr::TypedString { data_type, value } => data_type_text(data_type, ctx) + " '"@ + escaped(
            value@,
        ) + "'"@,
        Expr::Function(fun) => function_text(fun, ctx),
        Expr::Case { operand, conditions, results, else_result } => "CASE"@
            + optional_boxed_expr_text(" "@, operand, ctx) + concatenated(case_arm_texts(e, ctx))
            + optional_boxed_expr_text(" ELSE "@, else_result, ctx) + " END"@,
        Expr::Exists(q) => "EXISTS ("@ + query_text(*q, ctx) + ")"@,
        Expr::Subquery(q) => "("@ + query_text(*q, ctx) + ")"@,
        Expr::ListAgg(agg) => list_agg_text(agg, ctx),
        Expr::Substring { expr, substring_from, substring_for } => "SUBSTRING("@ + expr_text(
            *expr,
            ctx,
        ) + optional_boxed_expr_text(" FROM "@, substring_from, ctx) + optional_boxed_expr_text(
            " FOR "@,
            substring_for,
            ctx,
        ) + ")"@,
        Expr::ParameterMark(_) => Seq::empty(),
    }
}

/// The keyword of a window frame's unit.
pub open spec fn window_frame_units_text(units: WindowFrameUnits) -> Seq<char> {
    match units {
        WindowFrameUnits::Rows => "ROWS"@,
        WindowFrameUnits::Range => "RANGE"@,
        WindowFrameUnits::Groups => "GROUPS"@,
    }
}

/// The text of a window frame's bound.
pub open spec fn window_frame_bound_text(bound: WindowFrameBound) -> Seq<char> {
    match bound {
        WindowFrameBound::CurrentRow => "CURRENT ROW"@,
        WindowFrameBound::Preceding(None) => "UNBOUNDED PRECEDING"@,
        WindowFrameBound::Following(None) => "UNBOUNDED FOLLOWING"@,
        WindowFrameBound::Preceding(Some(n)) => decimal(n as nat) + " PRECEDING"@,
        WindowFrameBound::Following(Some(n)) => decimal(n as nat) + " FOLLOWING"@,
    }
}

/// The text of a window frame: its unit, then either the start bound alone
/// or both bounds with `BETWEEN .. AND ..`.
pub open spec fn window_frame_text(frame: WindowFrame) -> Seq<char> {
    match frame.end_bound {
        Some(end) => window_frame_units_text(frame.units) + " BETWEEN "@ + window_frame_bound_text(
            frame.start_bound,
        ) + " AND "@ + window_frame_bound_text(end),
        None => window_frame_units_text(frame.units) + " "@ + window_frame_bound_text(
            frame.start_bound,
        ),
    }
}

/// The text of a window specification: the clauses that are present, in the
/// order partition, order and frame, with one space between two of them.
pub open spec fn window_spec_text(w: WindowSpec, ctx: Context) -> Seq<char>
    decreases w, 1int,
{
    let partition = w.partition_by@.len() > 0;
    let order = w.order_by@.len() > 0;
    flag_text(partition, "PARTITION BY "@ + separated(expr_texts(w.partition_by@, ctx), ", "@))
        + flag_text(
        order,
        flag_text(partition, " "@) + "ORDER BY "@ + separated(
            order_by_expr_texts(w.order_by@, ctx),
            ", "@,
        ),
    ) + match w.window_frame {
        Some(frame) => flag_text(partition || order, " "@) + window_frame_text(frame),
        None => Seq::empty(),
    }
}

/// The text of a function argument.
pub open spec fn function_arg_text(a: FunctionArg, ctx: Context) -> Seq<char>
    decreases a, 3int,
{
    match a {
        FunctionArg::Named { name, arg } => ident_text(name, ctx) + " => "@ + expr_text(arg, ctx),
        FunctionArg::Unnamed(arg) => expr_text(arg, ctx),
    }
}

/// The texts of the function arguments of `s`, in order.
pub open spec fn function_arg_texts(s: Seq<FunctionArg>, ctx: Context) -> Seq<Seq<char>>
    decreases s, 0int,
{
    Seq::new(
        s.len(),
        |i: int|
            if 0 <= i < s.len() {
                function_arg_text(s[i], ctx)
            } else {
                Seq::empty()
            },
    )
}

/// The text of a function call.
pub open spec fn function_text(fun: Function, ctx: Context) -> Seq<char>
    decreases fun, 1int,
{
    object_name_text(fun.name, ctx) + "("@ + flag_text(fun.distinct, "DISTINCT "@) + separated(
        function_arg_texts(fun.args@, ctx),
        ", "@,
    ) + ")"@ + match fun.over {
        Some(w) => " OVER ("@ + window_spec_text(w, ctx) + ")"@,
        None => Seq::empty(),
    }
}

/// The text of the `ON OVERFLOW` clause of a `LISTAGG`.
pub open spec fn list_agg_on_overflow_text(o: ListAggOnOverflow, ctx: Context) -> Seq<char>
    decreases o, 3int,
{
    " ON OVERFLOW"@ + match o {
        ListAggOnOverflow::Error => " ERROR"@,
        ListAggOnOverflow::Truncate { filler, with_count } => " TRUNCATE"@
            + optional_boxed_expr_text(" "@, filler, ctx) + if with_count {
            " WITH"@
        } else {
            " WITHOUT"@
        } + " COUNT"@,
    }
}

/// The text of a `LISTAGG` invocation.
pub open spec fn list_agg_text(agg: ListAgg, ctx: Context) -> Seq<char>
    decreases agg, 1int,
{
    "LISTAGG("@ + flag_text(agg.distinct, "DISTINCT "@) + expr_text(*agg.expr, ctx)
        + optional_boxed_expr_text(", "@, agg.separator, ctx) + match agg.on_overflow {
        Some(o) => list_agg_on_overflow_text(o, ctx),
        None => Seq::empty(),
    } + ")"@ + flag_text(
        agg.within_group@.len() > 0,
        " WITHIN GROUP (ORDER BY "@ + separated(order_by_expr_texts(agg.within_group@, ctx), ", "@)
            + ")"@,
    )
}
/// Every expression of `s` is well formed.
pub open spec fn exprs_wf(s: Seq<Expr>) -> bool
    decreases s, 0int,
{
    forall|i: int| 0 <= i < s.len() ==> expr_wf(#[trigger] s[i])
}

/// The expression, where there is one, is well formed.
pub open spec fn optional_expr_wf(e: Option<Expr>) -> bool
    decreases e, 3int,
{
    match e {
        Some(x) => expr_wf(x),
        None => true,
    }
}

/// The expression, where there is one, is well formed.
pub open spec fn optional_boxed_expr_wf(e: Option<Box<Expr>>) -> bool
    decreases e, 3int,
{
    match e {
        Some(x) => expr_wf(*x),
        None => true,
    }
}

/// The conditions and results that make up the arms of a `CASE` expression
/// are well formed.
pub open spec fn case_arms_wf(e: Expr) -> bool
    decreases e, 1int,
{
    match e {
        Expr::Case { operand, conditions, results, else_result } => forall|i: int|
            0 <= i < conditions@.len() && i < results@.len() ==> expr_wf(
                #[trigger] conditions@[i],
            ) && expr_wf(results@[i]),
        _ => true,
    }
}

/// Whether an expression meets the structural invariants that rendering
/// relies on, in every part that has a text.
pub open spec fn expr_wf(e: Expr) -> bool
    decreases e, 2int,
{
    match e {
        Expr::Identifier(id) => id.well_formed(),
        Expr::MapAccess { column, key } => expr_wf(*column),
        Expr::Wildcard => true,
        Expr::QualifiedWildcard(q) => idents_wf(q@),
        Expr::CompoundIdentifier(parts) => idents_wf(parts@),
        Expr::IsNull(inner) => expr_wf(*inner),
        Expr::IsNotNull(inner) => expr_wf(*inner),
        Expr::InList { expr, list, negated } => expr_wf(*expr) && exprs_wf(list@),
        Expr::InSubquery { expr, subquery, negated } => expr_wf(*expr) && query_wf(*subquery),
        Expr::Between { expr, negated, low, high } => expr_wf(*expr) && expr_wf(*low) && expr_wf(
            *high,
        ),
        Expr::BinaryOp { left, op, right } => expr_wf(*left) && expr_wf(*right),
        Expr::UnaryOp { op, expr } => expr_wf(*expr),
        Expr::Cast { expr, data_type } => expr_wf(*expr) && data_type_wf(data_type),
        Expr::TryCast { expr, data_type } => true,
        Expr::Extract { field, expr } => expr_wf(*expr),
        Expr::Collate { expr, collation } => expr_wf(*expr) && collation.well_formed(),
        Expr::Nested(inner) => expr_wf(*inner),
        Expr::Value(v) => value_wf(v),
        Expr::TypedString { data_type, value } => data_type_wf(data_type),
        Expr::Function(fun) => function_wf(fun),
        Expr::Case { operand, conditions, results, else_result } => optional_boxed_expr_wf(operand)
            && case_arms_wf(e) && optional_boxed_expr_wf(else_result),
        Expr::Exists(q) => query_wf(*q),
        Expr::Subquery(q) => query_wf(*q),
        Expr::ListAgg(agg) => list_agg_wf(agg),
        Expr::Substring { expr, substring_from, substring_for } => expr_wf(*expr)
            && optional_boxed_expr_wf(substring_from) && optional_boxed_expr_wf(substring_for),
        Expr::ParameterMark(_) => true,
    }
}

/// Whether a window specification is well formed.
pub open spec fn window_spec_wf(w: WindowSpec) -> bool
    decreases w, 1int,
{
    exprs_wf(w.partition_by@) && order_by_exprs_wf(w.order_by@)
}

/// Whether a function argument is well formed.
pub open spec fn function_arg_wf(a: FunctionArg) -> bool
    decreases a, 3int,
{
    match a {
        FunctionArg::Named { name, arg } => name.well_formed() && expr_wf(arg),
        FunctionArg::Unnamed(arg) => expr_wf(arg),
    }
}

/// Every function argument of `s` is well formed.
pub open spec fn function_args_wf(s: Seq<FunctionArg>) -> bool
    decreases s, 0int,
{
    forall|i: int| 0 <= i < s.len() ==> function_arg_wf(#[trigger] s[i])
}

/// Whether a function call is well formed.
pub open spec fn function_wf(fun: Function) -> bool
    decreases fun, 1int,
{
    fun.name.well_formed() && function_args_wf(fun.args@) && match fun.over {
        Some(w) => window_spec_wf(w),
        None => true,
    }
}

/// Whether the `ON OVERFLOW` clause of a `LISTAGG` is well formed.
pub open spec fn list_agg_on_overflow_wf(o: ListAggOnOverflow) -> bool
    decreases o, 3int,
{
    match o {
        ListAggOnOverflow::Error => true,
        ListAggOnOverflow::Truncate { filler, with_count } => optional_boxed_expr_wf(filler),
    }
}

/// Whether a `LISTAGG` invocation is well formed.
pub open spec fn list_agg_wf(agg: ListAgg) -> bool
    decreases agg, 1int,
{
    expr_wf(*agg.expr) && optional_boxed_expr_wf(agg.separator) && match agg.on_overflow {
        Some(o) => list_agg_on_overflow_wf(o),
        None => true,
    } && order_by_exprs_wf(agg.within_group@)
}
/// Appends the expressions of `list` with `sep` between them.
#[verifier::loop_isolation(false)]
pub fn write_exprs(list: &Vec<Expr>, sep: &str, f: &mut String, ctx: &RenderContext)
    requires
        exprs_wf(list@),
    ensures
        final(f)@ == appended(old(f)@, separated(expr_texts(list@, ctx@), sep@)),
    decreases list, 0int,
{
    let ghost parts = expr_texts(list@, ctx@);
    proof {
        lemma_separated_none(parts, sep@);
    }
    let mut i: usize = 0;
    while i < list.len()
        invariant
            0 <= i <= list.len(),
            f@ == appended(old(f)@, separated(parts.take(i as int), sep@)),
        decreases list.len() - i,
    {
        if i > 0 {
            put(f, sep);
        }
        proof {
            axiom_vec_index_decreases(*list, i as int);
            lemma_separated_step(parts, sep@, i as int);
        }
        write_expr(&list[i], f, ctx);
        i = i + 1;
    }
    proof {
        lemma_separated_none(parts, sep@);
    }
}

/// Appends `lead` and the expression, where there is one.
pub fn write_optional_expr(lead: &str, e: &Option<Expr>, f: &mut String, ctx: &RenderContext)
    requires
        optional_expr_wf(*e),
    ensures
        final(f)@ == appended(old(f)@, optional_expr_text(lead@, *e, ctx@)),
    decreases e, 3int,
{
    if let Some(x) = e {
        put(f, lead);
        write_expr(x, f, ctx);
    }
}

/// Appends `lead` and the expression, where there is one.
pub fn write_optional_boxed_expr(
    lead: &str,
    e: &Option<Box<Expr>>,
    f: &mut String,
    ctx: &RenderContext,
)
    requires
        optional_boxed_expr_wf(*e),
    ensures
        final(f)@ == appended(old(f)@, optional_boxed_expr_text(lead@, *e, ctx@)),
    decreases e, 3int,
{
    if let Some(x) = e {
        put(f, lead);
        write_expr(x, f, ctx);
    }
}

#[verifier::loop_isolation(false)]
fn write_case_arms(e: &Expr, f: &mut String, ctx: &RenderContext)
    requires
        e is Case,
        case_arms_wf(*e),
    ensures
        final(f)@ == appended(old(f)@, concatenated(case_arm_texts(*e, ctx@))),
    decreases e, 1int,
{
    if let Expr::Case { operand, conditions, results, else_result } = e {
        let ghost parts = case_arm_texts(*e, ctx@);
        proof {
            lemma_separated_none(parts, Seq::empty());
        }
        let n = if conditions.len() <= results.len() {
            conditions.len()
        } else {
            results.len()
        };
        let mut i: usize = 0;
        while i < n
            invariant
                0 <= i <= n,
                f@ == appended(old(f)@, concatenated(parts.take(i as int))),
            decreases n - i,
        {
            proof {
                axiom_vec_index_decreases(*conditions, i as int);
                axiom_vec_index_decreases(*results, i as int);
                lemma_separated_step(parts, Seq::empty(), i as int);
            }
            put(f, " WHEN ");
            write_expr(&conditions[i], f, ctx);
            put(f, " THEN ");
            write_expr(&results[i], f, ctx);
            i = i + 1;
        }
        proof {
            assert(parts.take(n as int) =~= parts);
        }
    }
}

fn write_map_access_expr(e: &Expr, f: &mut String, ctx: &RenderContext)
    requires
        e is MapAccess,
        expr_wf(*e),
    ensures
        final(f)@ == appended(old(f)@, expr_text(*e, ctx@)),
    decreases e, 2int,
{
    if let Expr::MapAccess { column, key } = e {
        write_expr(column, f, ctx);
        put(f, "[\"");
        put(f, key.as_str());
        put(f, "\"]");
    }
}

fn write_qualified_wildcard_expr(e: &Expr, f: &mut String, ctx: &RenderContext)
    requires
        e is QualifiedWildcard,
        expr_wf(*e),
    ensures
        final(f)@ == appended(old(f)@, expr_text(*e, ctx@)),
    decreases e, 2int,
{
    if let Expr::QualifiedWildcard(q) = e {
        write_idents(q, ".", f, ctx);
        put(f, ".*");
    }
}

fn write_is_null_expr(e: &Expr, f: &mut String, ctx: &RenderContext)
    requires
        e is IsNull,
        expr_wf(*e),
    ensures
        final(f)@ == appended(old(f)@, expr_text(*e, ctx@)),
    decreases e, 2int,
{
    if let Expr::IsNull(inner) = e {
        write_expr(inner, f, ctx);
        put(f, " IS NULL");
    }
}

fn write_is_not_null_expr(e: &Expr, f: &mut String, ctx: &RenderContext)
    requires
        e is IsNotNull,
        expr_wf(*e),
    ensures
        final(f)@ == appended(old(f)@, expr_text(*e, ctx@)),
    decreases e, 2int,
{
    if let Expr::IsNotNull(inner) = e {
        write_expr(inner, f, ctx);
        put(f, " IS NOT NULL");
    }
}

fn write_in_list_expr(e: &Expr, f: &mut String, ctx: &RenderContext)
    requires
        e is InList,
        expr_wf(*e),
    ensures
        final(f)@ == appended(old(f)@, expr_text(*e, ctx@)),
    decreases e, 2int,
{
    if let Expr::InList { expr, list, negated } = e {
        write_expr(expr, f, ctx);
        put(f, " ");
        write_flag(f, *negated, "NOT ");
        put(f, "IN (");
        write_exprs(list, ", ", f, ctx);
        put(f, ")");
    }
}

fn write_in_subquery_expr(e: &Expr, f: &mut String, ctx: &RenderContext)
    requires
        e is InSubquery,
        expr_wf(*e),
    ensures
        final(f)@ == appended(old(f)@, expr_text(*e, ctx@)),
    decreases e, 2int,
{
    if let Expr::InSubquery { expr, subquery, negated } = e {
        write_expr(expr, f, ctx);
        put(f, " ");
        write_flag(f, *negated, "NOT ");
        put(f, "IN (");
        write_query(subquery, f, ctx);
        put(f, ")");
    }
}

fn write_between_expr(e: &Expr, f: &mut String, ctx: &RenderContext)
    requires
        e is Between,
        expr_wf(*e),
    ensures
        final(f)@ == appended(old(f)@, expr_text(*e, ctx@)),
    decreases e, 2int,
{
    if let Expr::Between { expr, negated, low, high } = e {
        write_expr(expr, f, ctx);
        put(f, " ");
        write_flag(f, *negated, "NOT ");
        put(f, "BETWEEN ");
        write_expr(low, f, ctx);
        put(f, " AND ");
        write_expr(high, f, ctx);
    }
}

fn write_binary_op_expr(e: &Expr, f: &mut String, ctx: &RenderContext)
    requires
        e is BinaryOp,
        expr_wf(*e),
    ensures
        final(f)@ == appended(old(f)@, expr_text(*e, ctx@)),
    decreases e, 2int,
{
    if let Expr::BinaryOp { left, op, right } = e {
        write_expr(left, f, ctx);
        put(f, " ");
        put(f, binary_operator_symbol(op));
        put(f, " ");
        write_expr(right, f, ctx);
    }
}

fn write_unary_op_expr(e: &Expr, f: &mut String, ctx: &RenderContext)
    requires
        e is UnaryOp,
        expr_wf(*e),
    ensures
        final(f)@ == appended(old(f)@, expr_text(*e, ctx@)),
    decreases e, 2int,
{
    if let Expr::UnaryOp { op, expr } = e {
        if let UnaryOperator::PGPostfixFactorial = op {
            write_expr(expr, f, ctx);
            put(f, unary_operator_symbol(op));
        } else {
            put(f, unary_operator_symbol(op));
            put(f, " ");
            write_expr(expr, f, ctx);
        }
    }
}

fn write_cast_expr(e: &Expr, f: &mut String, ctx: &RenderContext)
    requires
        e is Cast,
        expr_wf(*e),
    ensures
        final(f)@ == appended(old(f)@, expr_text(*e, ctx@)),
    decreases e, 2int,
{
    if let Expr::Cast { expr, data_type } = e {
        put(f, "CAST(");
        write_expr(expr, f, ctx);
        put(f, " AS ");
        write_data_type(data_type, f, ctx);
        put(f, ")");
    }
}

fn write_extract_expr(e: &Expr, f: &mut String, ctx: &RenderContext)
    requires
        e is Extract,
        expr_wf(*e),
    ensures
        final(f)@ == appended(old(f)@, expr_text(*e, ctx@)),
    decreases e, 2int,
{
    if let Expr::Extract { field, expr } = e {
        put(f, "EXTRACT(");
        put(f, date_time_field_keyword(field));
        put(f, " FROM ");
        write_expr(expr, f, ctx);
        put(f, ")");
    }
}

fn write_collate_expr(e: &Expr, f: &mut String, ctx: &RenderContext)
    requires
        e is Collate,
        expr_wf(*e),
    ensures
        final(f)@ == appended(old(f)@, expr_text(*e, ctx@)),
    decreases e, 2int,
{
    if let Expr::Collate { expr, collation } = e {
        write_expr(expr, f, ctx);
        put(f, " COLLATE ");
        write_object_name(collation, f, ctx);
    }
}

fn write_nested_expr(e: &Expr, f: &mut String, ctx: &RenderContext)
    requires
        e is Nested,
        expr_wf(*e),
    ensures
        final(f)@ == appended(old(f)@, expr_text(*e, ctx@)),
    decreases e, 2int,
{
    if let Expr::Nested(inner) = e {
        put(f, "(");
        write_expr(inner, f, ctx);
        put(f, ")");
    }
}

fn write_typed_string_expr(e: &Expr, f: &mut String, ctx: &RenderContext)
    requires
        e is TypedString,
        expr_wf(*e),
    ensures
        final(f)@ == appended(old(f)@, expr_text(*e, ctx@)),
    decreases e, 2int,
{
    if let Expr::TypedString { data_type, value } = e {
        write_data_type(data_type, f, ctx);
        put(f, " '");
        write_escaped(f, value.as_str());
        put(f, "'");
    }
}

fn write_case_expr(e: &Expr, f: &mut String, ctx: &RenderContext)
    requires
        e is Case,
        expr_wf(*e),
    ensures
        final(f)@ == appended(old(f)@, expr_text(*e, ctx@)),
    decreases e, 2int,
{
    if let Expr::Case { operand, conditions, results, else_result } = e {
        put(f, "CASE");
        write_optional_boxed_expr(" ", operand, f, ctx);
        write_case_arms(e, f, ctx);
        write_optional_boxed_expr(" ELSE ", else_result, f, ctx);
        put(f, " END");
    }
}

fn write_exists_expr(e: &Expr, f: &mut String, ctx: &RenderContext)
    requires
        e is Exists,
        expr_wf(*e),
    ensures
        final(f)@ == appended(old(f)@, expr_text(*e, ctx@)),
    decreases e, 2int,
{
    if let Expr::Exists(q) = e {
        put(f, "EXISTS (");
        write_query(q, f, ctx);
        put(f, ")");
    }
}

fn write_subquery_expr(e: &Expr, f: &mut String, ctx: &RenderContext)
    requires
        e is Subquery,
        expr_wf(*e),
    ensures
        final(f)@ == appended(old(f)@, expr_text(*e, ctx@)),
    decreases e, 2int,
{
    if let Expr::Subquery(q) = e {
        put(f, "(");
        write_query(q, f, ctx);
        put(f, ")");
    }
}

fn write_substring_expr(e: &Expr, f: &mut String, ctx: &RenderContext)
    requires
        e is Substring,
        expr_wf(*e),
    ensures
        final(f)@ == appended(old(f)@, expr_text(*e, ctx@)),
    decreases e, 2int,
{
    if let Expr::Substring { expr, substring_from, substring_for } = e {
        put(f, "SUBSTRING(");
        write_expr(expr, f, ctx);
        write_optional_boxed_expr(" FROM ", substring_from, f, ctx);
        write_optional_boxed_expr(" FOR ", substring_for, f, ctx);
        put(f, ")");
    }
}

/// Appends the SQL text of an expression.
#[verifier::rlimit(50)]
pub fn write_expr(e: &Expr, f: &mut String, ctx: &RenderContext)
    requires
        expr_wf(*e),
    ensures
        final(f)@ == appended(old(f)@, expr_text(*e, ctx@)),
    decreases e, 3int,
{
    match e {
        Expr::Identifier(id) => write_ident(id, f, ctx),
        Expr::MapAccess { .. } => write_map_access_expr(e, f, ctx),
        Expr::Wildcard => put(f, "*"),
        Expr::QualifiedWildcard(..) => write_qualified_wildcard_expr(e, f, ctx),
        Expr::CompoundIdentifier(parts) => write_idents(parts, ".", f, ctx),
        Expr::IsNull(..) => write_is_null_expr(e, f, ctx),
        Expr::IsNotNull(..) => write_is_not_null_expr(e, f, ctx),
        Expr::InList { .. } => write_in_list_expr(e, f, ctx),
        Expr::InSubquery { .. } => write_in_subquery_expr(e, f, ctx),
        Expr::Between { .. } => write_between_expr(e, f, ctx),
        Expr::BinaryOp { .. } => write_binary_op_expr(e, f, ctx),
        Expr::UnaryOp { .. } => write_unary_op_expr(e, f, ctx),
        Expr::Cast { .. } => write_cast_expr(e, f, ctx),
        Expr::TryCast { expr, data_type } => {},
        Expr::Extract { .. } => write_extract_expr(e, f, ctx),
        Expr::Collate { .. } => write_collate_expr(e, f, ctx),
        Expr::Nested(..) => write_nested_expr(e, f, ctx),
        Expr::Value(v) => write_value(v, f),
        Expr::TypedString { .. } => write_typed_string_expr(e, f, ctx),
        Expr::Function(fun) => write_function(fun, f, ctx),
        Expr::Case { .. } => write_case_expr(e, f, ctx),
        Expr::Exists(..) => write_exists_expr(e, f, ctx),
        Expr::Subquery(..) => write_subquery_expr(e, f, ctx),
        Expr::ListAgg(agg) => write_list_agg(agg, f, ctx),
        Expr::Substring { .. } => write_substring_expr(e, f, ctx),
        Expr::ParameterMark(_) => {},
    }
}

/// The keyword of a window frame's unit.
pub fn window_frame_units_keyword(units: &WindowFrameUnits) -> (r: &'static str)
    ensures
        r@ == window_frame_units_text(*units),
{
    match units {
        WindowFrameUnits::Rows => "ROWS",
        WindowFrameUnits::Range => "RANGE",
        WindowFrameUnits::Groups => "GROUPS",
    }
}

/// Appends the text of a window frame's bound.
pub fn write_window_frame_bound(bound: &WindowFrameBound, f: &mut String)
    ensures
        final(f)@ == appended(old(f)@, window_frame_bound_text(*bound)),
{
    match bound {
        WindowFrameBound::CurrentRow => put(f, "CURRENT ROW"),
        WindowFrameBound::Preceding(None) => put(f, "UNBOUNDED PRECEDING"),
        WindowFrameBound::Following(None) => put(f, "UNBOUNDED FOLLOWING"),
        WindowFrameBound::Preceding(Some(n)) => {
            write_decimal(f, *n);
            put(f, " PRECEDING");
        },
        WindowFrameBound::Following(Some(n)) => {
            write_decimal(f, *n);
            put(f, " FOLLOWING");
        },
    }
}

/// Appends the text of a window frame.
pub fn write_window_frame(frame: &WindowFrame, f: &mut String)
    ensures
        final(f)@ == appended(old(f)@, window_frame_text(*frame)),
{
    put(f, window_frame_units_keyword(&frame.units));
    if let Some(end) = &frame.end_bound {
        put(f, " BETWEEN ");
        write_window_frame_bound(&frame.start_bound, f);
        put(f, " AND ");
        write_window_frame_bound(end, f);
    } else {
        put(f, " ");
        write_window_frame_bound(&frame.start_bound, f);
    }
}

/// Appends the text of a window specification.
pub fn write_window_spec(w: &WindowSpec, f: &mut String, ctx: &RenderContext)
    requires
        window_spec_wf(*w),
    ensures
        final(f)@ == appended(old(f)@, window_spec_text(*w, ctx@)),
    decreases w, 1int,
{
    let partition = w.partition_by.len() > 0;
    let order = w.order_by.len() > 0;
    if partition {
        put(f, "PARTITION BY ");
        write_exprs(&w.partition_by, ", ", f, ctx);
    }
    if order {
        write_flag(f, partition, " ");
        put(f, "ORDER BY ");
        write_order_by_exprs(&w.order_by, ", ", f, ctx);
    }
    if let Some(frame) = &w.window_frame {
        write_flag(f, partition || order, " ");
        write_window_frame(frame, f);
    }
}

/// Appends the text of a function argument.
pub fn write_function_arg(a: &FunctionArg, f: &mut String, ctx: &RenderContext)
    requires
        function_arg_wf(*a),
    ensures
        final(f)@ == appended(old(f)@, function_arg_text(*a, ctx@)),
    decreases a, 3int,
{
    match a {
        FunctionArg::Named { name, arg } => {
            write_ident(name, f, ctx);
            put(f, " => ");
            write_expr(arg, f, ctx);
        },
        FunctionArg::Unnamed(arg) => write_expr(arg, f, ctx),
    }
}

/// Appends the function arguments of `list` with `sep` between them.
#[verifier::loop_isolation(false)]
pub fn write_function_args(list: &Vec<FunctionArg>, sep: &str, f: &mut String, ctx: &RenderContext)
    requires
        function_args_wf(list@),
    ensures
        final(f)@ == appended(old(f)@, separated(function_arg_texts(list@, ctx@), sep@)),
    decreases list, 0int,
{
    let ghost parts = function_arg_texts(list@, ctx@);
    proof {
        lemma_separated_none(parts, sep@);
    }
    let mut i: usize = 0;
    while i < list.len()
        invariant
            0 <= i <= list.len(),
            f@ == appended(old(f)@, separated(parts.take(i as int), sep@)),
        decreases list.len() - i,
    {
        if i > 0 {
            put(f, sep);
        }
        proof {
            axiom_vec_index_decreases(*list, i as int);
            lemma_separated_step(parts, sep@, i as int);
        }
        write_function_arg(&list[i], f, ctx);
        i = i + 1;
    }
    proof {
        lemma_separated_none(parts, sep@);
    }
}

/// Appends the text of a function call.
pub fn write_function(fun: &Function, f: &mut String, ctx: &RenderContext)
    requires
        function_wf(*fun),
    ensures
        final(f)@ == appended(old(f)@, function_text(*fun, ctx@)),
    decreases fun, 1int,
{
    write_object_name(&fun.name, f, ctx);
    put(f, "(");
    write_flag(f, fun.distinct, "DISTINCT ");
    write_function_args(&fun.args, ", ", f, ctx);
    put(f, ")");
    if let Some(w) = &fun.over {
        put(f, " OVER (");
        write_window_spec(w, f, ctx);
        put(f, ")");
    }
}

/// Appends the text of the `ON OVERFLOW` clause of a `LISTAGG`.
pub fn write_list_agg_on_overflow(o: &ListAggOnOverflow, f: &mut String, ctx: &RenderContext)
    requires
        list_agg_on_overflow_wf(*o),
    ensures
        final(f)@ == appended(old(f)@, list_agg_on_overflow_text(*o, ctx@)),
    decreases o, 3int,
{
    put(f, " ON OVERFLOW");
    match o {
        ListAggOnOverflow::Error => put(f, " ERROR"),
        ListAggOnOverflow::Truncate { filler, with_count } => {
            put(f, " TRUNCATE");
            write_optional_boxed_expr(" ", filler, f, ctx);
            if *with_count {
                put(f, " WITH");
            } else {
                put(f, " WITHOUT");
            }
            put(f, " COUNT");
        },
    }
}

/// Appends the text of a `LISTAGG` invocation.
pub fn write_list_agg(agg: &ListAgg, f: &mut String, ctx: &RenderContext)
    requires
        list_agg_wf(*agg),
    ensures
        final(f)@ == appended(old(f)@, list_agg_text(*agg, ctx@)),
    decreases agg, 1int,
{
    put(f, "LISTAGG(");
    write_flag(f, agg.distinct, "DISTINCT ");
    write_expr(&agg.expr, f, ctx);
    write_optional_boxed_expr(", ", &agg.separator, f, ctx);
    if let Some(o) = &agg.on_overflow {
        write_list_agg_on_overflow(o, f, ctx);
    }
    put(f, ")");
    if agg.within_group.len() > 0 {
        put(f, " WITHIN GROUP (ORDER BY ");
        write_order_by_exprs(&agg.within_group, ", ", f, ctx);
        put(f, ")");
    }
}
/// Whether every expression of `list` is well formed.
#[verifier::loop_isolation(false)]
pub fn check_exprs(list: &Vec<Expr>) -> (r: bool)
    ensures
        r == exprs_wf(list@),
    decreases list, 0int,
{
    let mut i: usize = 0;
    while i < list.len()
        invariant
            0 <= i <= list.len(),
            forall|j: int| 0 <= j < i ==> expr_wf((#[trigger] list@[j])),
        decreases list.len() - i,
    {
        proof {
            axiom_vec_index_decreases(*list, i as int);
        }
        if !check_expr(&list[i]) {
            return false;
        }
        i = i + 1;
    }
    true
}

/// Whether the expression, where there is one, is well formed.
pub fn check_optional_expr(e: &Option<Expr>) -> (r: bool)
    ensures
        r == optional_expr_wf(*e),
    decreases e, 3int,
{
    match e {
        Some(x) => check_expr(x),
        None => true,
    }
}

/// Whether the expression, where there is one, is well formed.
pub fn check_optional_boxed_expr(e: &Option<Box<Expr>>) -> (r: bool)
    ensures
        r == optional_boxed_expr_wf(*e),
    decreases e, 3int,
{
    match e {
        Some(x) => check_expr(x),
        None => true,
    }
}

#[verifier::loop_isolation(false)]
fn check_case_arms(e: &Expr) -> (r: bool)
    requires
        e is Case,
    ensures
        r == case_arms_wf(*e),
    decreases e, 1int,
{
    if let Expr::Case { operand, conditions, results, else_result } = e {
        let n = if conditions.len() <= results.len() {
            conditions.len()
        } else {
            results.len()
        };
        let mut i: usize = 0;
        while i < n
            invariant
                0 <= i <= n,
                forall|j: int| 0 <= j < i ==> expr_wf(#[trigger] conditions@[j]),
                forall|j: int| 0 <= j < i ==> expr_wf(#[trigger] results@[j]),
            decreases n - i,
        {
            proof {
                axiom_vec_index_decreases(*conditions, i as int);
                axiom_vec_index_decreases(*results, i as int);
            }
            if !check_expr(&conditions[i]) {
                return false;
            }
            if !check_expr(&results[i]) {
                return false;
            }
            i = i + 1;
        }
    }
    true
}

/// Whether an expression is well formed.
#[verifier::rlimit(50)]
pub fn check_expr(e: &Expr) -> (r: bool)
    ensures
        r == expr_wf(*e),
    decreases e, 2int,
{
    match e {
        Expr::Identifier(id) => id.is_well_formed(),
        Expr::MapAccess { column, key } => check_expr(column),
        Expr::Wildcard => true,
        Expr::QualifiedWildcard(q) => check_idents(q),
        Expr::CompoundIdentifier(parts) => check_idents(parts),
        Expr::IsNull(inner) => check_expr(inner),
        Expr::IsNotNull(inner) => check_expr(inner),
        Expr::InList { expr, list, negated } => check_expr(expr) && check_exprs(list),
        Expr::InSubquery { expr, subquery, negated } => check_expr(expr) && check_query(subquery),
        Expr::Between { expr, negated, low, high } => check_expr(expr) && check_expr(low)
            && check_expr(high),
        Expr::BinaryOp { left, op, right } => check_expr(left) && check_expr(right),
        Expr::UnaryOp { op, expr } => check_expr(expr),
        Expr::Cast { expr, data_type } => check_expr(expr) && check_data_type(data_type),
        Expr::TryCast { expr, data_type } => true,
        Expr::Extract { field, expr } => check_expr(expr),
        Expr::Collate { expr, collation } => check_expr(expr) && collation.is_well_formed(),
        Expr::Nested(inner) => check_expr(inner),
        Expr::Value(v) => check_value(v),
        Expr::TypedString { data_type, value } => check_data_type(data_type),
        Expr::Function(fun) => check_function(fun),
        Expr::Case { operand, conditions, results, else_result } => check_optional_boxed_expr(
            operand,
        ) && check_case_arms(e) && check_optional_boxed_expr(else_result),
        Expr::Exists(q) => check_query(q),
        Expr::Subquery(q) => check_query(q),
        Expr::ListAgg(agg) => check_list_agg(agg),
        Expr::Substring { expr, substring_from, substring_for } => check_expr(expr)
            && check_optional_boxed_expr(substring_from) && check_optional_boxed_expr(
            substring_for,
        ),
        Expr::ParameterMark(_) => true,
    }
}

/// Whether a window specification is well formed.
pub fn check_window_spec(w: &WindowSpec) -> (r: bool)
    ensures
        r == window_spec_wf(*w),
    decreases w, 1int,
{
    check_exprs(&w.partition_by) && check_order_by_exprs(&w.order_by)
}

/// Whether a function argument is well formed.
pub fn check_function_arg(a: &FunctionArg) -> (r: bool)
    ensures
        r == function_arg_wf(*a),
    decreases a, 3int,
{
    match a {
        FunctionArg::Named { name, arg } => name.is_well_formed() && check_expr(arg),
        FunctionArg::Unnamed(arg) => check_expr(arg),
    }
}

/// Whether every function argument of `list` is well formed.
#[verifier::loop_isolation(false)]
pub fn check_function_args(list: &Vec<FunctionArg>) -> (r: bool)
    ensures
        r == function_args_wf(list@),
    decreases list, 0int,
{
    let mut i: usize = 0;
    while i < list.len()
        invariant
            0 <= i <= list.len(),
            forall|j: int| 0 <= j < i ==> function_arg_wf((#[trigger] list@[j])),
        decreases list.len() - i,
    {
        proof {
            axiom_vec_index_decreases(*list, i as int);
        }
        if !check_function_arg(&list[i]) {
            return false;
        }
        i = i + 1;
    }
    true
}

/// Whether a function call is well formed.
pub fn check_function(fun: &Function) -> (r: bool)
    ensures
        r == function_wf(*fun),
    decreases fun, 1int,
{
    fun.name.is_well_formed() && check_function_args(&fun.args) && match &fun.over {
        Some(w) => check_window_spec(w),
        None => true,
    }
}

/// Whether the `ON OVERFLOW` clause of a `LISTAGG` is well formed.
pub fn check_list_agg_on_overflow(o: &ListAggOnOverflow) -> (r: bool)
    ensures
        r == list_agg_on_overflow_wf(*o),
    decreases o, 3int,
{
    match o {
        ListAggOnOverflow::Error => true,
        ListAggOnOverflow::Truncate { filler, with_count } => check_optional_boxed_expr(filler),
    }
}

/// Whether a `LISTAGG` invocation is well formed.
pub fn check_list_agg(agg: &ListAgg) -> (r: bool)
    ensures
        r == list_agg_wf(*agg),
    decreases agg, 1int,
{
    check_expr(&agg.expr) && check_optional_boxed_expr(&agg.separator) && (match &agg.on_overflow {
        Some(o) => check_list_agg_on_overflow(o),
        None => true,
    }) && check_order_by_exprs(&agg.within_group)
}
} // verus!
