//! The leaves of queries.

use vstd::prelude::*;
use vstd::std_specs::vec::axiom_vec_index_decreases;
use crate::analyse::Accumulator;
use crate::analyse::Fact;
use crate::analyse::Leaf;
use crate::analyse::SAResult;
use crate::analyse::SQLAnalyse;
use crate::analyse::Traced;
use crate::analyse::analyse_all;
use crate::analyse::expr::expr_parts;
use crate::analyse::expr::exprs_parts;
use crate::analyse::expr::function_args_parts;
use crate::analyse::expr::gather_expr;
use crate::analyse::expr::gather_exprs;
use crate::analyse::expr::gather_function_args;
use crate::analyse::expr::gather_names;
use crate::analyse::expr::gather_optional_expr;
use crate::analyse::expr::gather_optional_name;
use crate::analyse::expr::name_leaves;
use crate::analyse::expr::optional_expr_parts;
use crate::analyse::expr::optional_name_parts;
use crate::analyse::facts_of_all;
use crate::analyse::gather;
use crate::analyse::gathered;
use crate::analyse::statement::gather_statement;
use crate::analyse::statement::statement_parts;
use crate::expr::Expr;
use crate::query::Cte;
use crate::query::Fetch;
use crate::query::Join;
use crate::query::JoinConstraint;
use crate::query::JoinOperator;
use crate::query::LateralView;
use crate::query::Offset;
use crate::query::OrderByExpr;
use crate::query::Query;
use crate::query::Select;
use crate::query::SelectItem;
use crate::query::SetExpr;
use crate::query::TableAlias;
use crate::query::TableFactor;
use crate::query::TableWithJoins;
use crate::query::Top;
use crate::query::Values;
use crate::query::With;

verus! {

broadcast use crate::analyse::group_gather;

/// The leaves of an `ORDER BY` expression.
pub open spec fn order_by_expr_parts<'a>(x: OrderByExpr) -> Seq<Leaf<'a>>
    decreases x, 1int, 0int,
{
    expr_parts(x.expr)
}

/// Gathers what `order_by_expr_parts` names, in order.
pub fn gather_order_by_expr<'a>(x: &'a OrderByExpr, v: &mut Vec<Leaf<'a>>)
    ensures
        final(v)@ == gathered(old(v)@, order_by_expr_parts(*x)),
    decreases x, 1int, 0int,
{
    gather_expr(&x.expr, v);
}

/// The leaves of the `ORDER BY` expressions of `s`, expression after
/// expression.
pub open spec fn order_by_exprs_parts<'a>(s: Seq<OrderByExpr>) -> Seq<Leaf<'a>>
    decreases s, 0int, 0int,
{
    if s.len() == 0 {
        Seq::empty()
    } else {
        order_by_exprs_parts(s.drop_last()) + order_by_expr_parts(s.last())
    }
}

/// Gathers what `order_by_exprs_parts` names, in order.
#[verifier::loop_isolation(false)]
pub fn gather_order_by_exprs<'a>(list: &'a Vec<OrderByExpr>, v: &mut Vec<Leaf<'a>>)
    ensures
        final(v)@ == gathered(old(v)@, order_by_exprs_parts(list@)),
    decreases list, 0int, 0int,
{
    let mut i: usize = 0;
    assert(list@.take(0) =~= Seq::<OrderByExpr>::empty());
    while i < list.len()
        invariant
            0 <= i <= list.len(),
            v@ == gathered(old(v)@, order_by_exprs_parts::<'a>(list@.take(i as int))),
        decreases list.len() - i,
    {
        proof {
            axiom_vec_index_decreases(*list, i as int);
        }
        proof {
            assert(list@.take(i + 1).drop_last() =~= list@.take(i as int));
        }
        gather_order_by_expr(&list[i], v);
        i = i + 1;
    }
    assert(list@.take(list@.len() as int) =~= list@);
}

/// The leaves of a table alias: its name and the names it gives to the
/// columns.
pub open spec fn table_alias_parts<'a>(x: TableAlias) -> Seq<Leaf<'a>>
    decreases x, 1int, 0int,
{
    seq![Leaf::Name(&x.name)] + name_leaves(x.columns@)
}

/// Gathers what `table_alias_parts` names, in order.
pub fn gather_table_alias<'a>(x: &'a TableAlias, v: &mut Vec<Leaf<'a>>)
    ensures
        final(v)@ == gathered(old(v)@, table_alias_parts(*x)),
    decreases x, 1int, 0int,
{
    gather(v, Leaf::Name(&x.name));
    gather_names(&x.columns, v);
}

/// The leaves of the alias, where there is one.
pub open spec fn optional_alias_parts<'a>(x: Option<TableAlias>) -> Seq<Leaf<'a>>
    decreases x, 2int, 0int,
{
    match x {
        Some(a) => table_alias_parts(a),
        None => Seq::empty(),
    }
}

/// Gathers what `optional_alias_parts` names, in order.
pub fn gather_optional_alias<'a>(x: &'a Option<TableAlias>, v: &mut Vec<Leaf<'a>>)
    ensures
        final(v)@ == gathered(old(v)@, optional_alias_parts(*x)),
    decreases x, 2int, 0int,
{
    match x {
        Some(a) => {
            gather_table_alias(a, v);
        },
        None => {},
    }
}

/// The leaves of a common table expression.
pub open spec fn cte_parts<'a>(x: Cte) -> Seq<Leaf<'a>>
    decreases x, 1int, 0int,
{
    table_alias_parts(x.alias)
        + query_parts(x.query)
        + optional_name_parts(x.from)
}

/// Gathers what `cte_parts` names, in order.
pub fn gather_cte<'a>(x: &'a Cte, v: &mut Vec<Leaf<'a>>)
    ensures
        final(v)@ == gathered(old(v)@, cte_parts(*x)),
    decreases x, 1int, 0int,
{
    gather_table_alias(&x.alias, v);
    gather_query(&x.query, v);
    gather_optional_name(&x.from, v);
}

/// The leaves of the common table expressions of `s`, one after the other.
pub open spec fn ctes_parts<'a>(s: Seq<Cte>) -> Seq<Leaf<'a>>
    decreases s, 0int, 0int,
{
    if s.len() == 0 {
        Seq::empty()
    } else {
        ctes_parts(s.drop_last()) + cte_parts(s.last())
    }
}

/// Gathers what `ctes_parts` names, in order.
#[verifier::loop_isolation(false)]
pub fn gather_ctes<'a>(list: &'a Vec<Cte>, v: &mut Vec<Leaf<'a>>)
    ensures
        final(v)@ == gathered(old(v)@, ctes_parts(list@)),
    decreases list, 0int, 0int,
{
    let mut i: usize = 0;
    assert(list@.take(0) =~= Seq::<Cte>::empty());
    while i < list.len()
        invariant
            0 <= i <= list.len(),
            v@ == gathered(old(v)@, ctes_parts::<'a>(list@.take(i as int))),
        decreases list.len() - i,
    {
        proof {
            axiom_vec_index_decreases(*list, i as int);
        }
        proof {
            assert(list@.take(i + 1).drop_last() =~= list@.take(i as int));
        }
        gather_cte(&list[i], v);
        i = i + 1;
    }
    assert(list@.take(list@.len() as int) =~= list@);
}

/// The leaves of a `WITH` clause.
pub open spec fn with_parts<'a>(x: With) -> Seq<Leaf<'a>>
    decreases x, 1int, 0int,
{
    ctes_parts(x.cte_tables@)
}

/// Gathers what `with_parts` names, in order.
pub fn gather_with<'a>(x: &'a With, v: &mut Vec<Leaf<'a>>)
    ensures
        final(v)@ == gathered(old(v)@, with_parts(*x)),
    decreases x, 1int, 0int,
{
    gather_ctes(&x.cte_tables, v);
}

/// The leaves of one item of a projection.
pub open spec fn select_item_parts<'a>(x: SelectItem) -> Seq<Leaf<'a>>
    decreases x, 1int, 0int,
{
    match x {
        SelectItem::UnnamedExpr(e) => expr_parts(e),
        SelectItem::ExprWithAlias { expr, alias } => expr_parts(expr) + seq![Leaf::Name(&alias)],
        SelectItem::QualifiedWildcard(prefix) => seq![Leaf::Object(&prefix)],
        SelectItem::Wildcard => Seq::empty(),
    }
}

/// Gathers what `select_item_parts` names, in order.
pub fn gather_select_item<'a>(x: &'a SelectItem, v: &mut Vec<Leaf<'a>>)
    ensures
        final(v)@ == gathered(old(v)@, select_item_parts(*x)),
    decreases x, 1int, 0int,
{
    match x {
        SelectItem::UnnamedExpr(e) => {
            gather_expr(e, v);
        },
        SelectItem::ExprWithAlias { expr, alias } => {
            gather_expr(expr, v);
            gather(v, Leaf::Name(alias));
        },
        SelectItem::QualifiedWildcard(prefix) => {
            gather(v, Leaf::Object(prefix));
        },
        SelectItem::Wildcard => {},
    }
}

/// The leaves of the projection items of `s`, item after item.
pub open spec fn select_items_parts<'a>(s: Seq<SelectItem>) -> Seq<Leaf<'a>>
    decreases s, 0int, 0int,
{
    if s.len() == 0 {
        Seq::empty()
    } else {
        select_items_parts(s.drop_last()) + select_item_parts(s.last())
    }
}

/// Gathers what `select_items_parts` names, in order.
#[verifier::loop_isolation(false)]
pub fn gather_select_items<'a>(list: &'a Vec<SelectItem>, v: &mut Vec<Leaf<'a>>)
    ensures
        final(v)@ == gathered(old(v)@, select_items_parts(list@)),
    decreases list, 0int, 0int,
{
    let mut i: usize = 0;
    assert(list@.take(0) =~= Seq::<SelectItem>::empty());
    while i < list.len()
        invariant
            0 <= i <= list.len(),
            v@ == gathered(old(v)@, select_items_parts::<'a>(list@.take(i as int))),
        decreases list.len() - i,
    {
        proof {
            axiom_vec_index_decreases(*list, i as int);
        }
        proof {
            assert(list@.take(i + 1).drop_last() =~= list@.take(i as int));
        }
        gather_select_item(&list[i], v);
        i = i + 1;
    }
    assert(list@.take(list@.len() as int) =~= list@);
}

/// The leaves of a join's condition.
pub open spec fn join_constraint_parts<'a>(x: JoinConstraint) -> Seq<Leaf<'a>>
    decreases x, 1int, 0int,
{
    match x {
        JoinConstraint::On(e) => expr_parts(e),
        JoinConstraint::Using(attrs) => name_leaves(attrs@),
        JoinConstraint::Natural => Seq::empty(),
        JoinConstraint::Unconstrained => Seq::empty(),
    }
}

/// Gathers what `join_constraint_parts` names, in order.
pub fn gather_join_constraint<'a>(x: &'a JoinConstraint, v: &mut Vec<Leaf<'a>>)
    ensures
        final(v)@ == gathered(old(v)@, join_constraint_parts(*x)),
    decreases x, 1int, 0int,
{
    match x {
        JoinConstraint::On(e) => {
            gather_expr(e, v);
        },
        JoinConstraint::Using(attrs) => {
            gather_names(attrs, v);
        },
        JoinConstraint::Natural => {},
        JoinConstraint::Unconstrained => {},
    }
}

/// The leaves of a join's kind: those of its condition.
pub open spec fn join_operator_parts<'a>(x: JoinOperator) -> Seq<Leaf<'a>>
    decreases x, 2int, 0int,
{
    match x {
        JoinOperator::Inner(c) => join_constraint_parts(c),
        JoinOperator::LeftOuter(c) => join_constraint_parts(c),
        JoinOperator::RightOuter(c) => join_constraint_parts(c),
        JoinOperator::FullOuter(c) => join_constraint_parts(c),
        JoinOperator::CrossJoin => Seq::empty(),
        JoinOperator::CrossApply => Seq::empty(),
        JoinOperator::OuterApply => Seq::empty(),
    }
}

/// Gathers what `join_operator_parts` names, in order.
pub fn gather_join_operator<'a>(x: &'a JoinOperator, v: &mut Vec<Leaf<'a>>)
    ensures
        final(v)@ == gathered(old(v)@, join_operator_parts(*x)),
    decreases x, 2int, 0int,
{
    match x {
        JoinOperator::Inner(c) => {
            gather_join_constraint(c, v);
        },
        JoinOperator::LeftOuter(c) => {
            gather_join_constraint(c, v);
        },
        JoinOperator::RightOuter(c) => {
            gather_join_constraint(c, v);
        },
        JoinOperator::FullOuter(c) => {
            gather_join_constraint(c, v);
        },
        JoinOperator::CrossJoin => {},
        JoinOperator::CrossApply => {},
        JoinOperator::OuterApply => {},
    }
}

/// The leaves of a join: those of the joined table and then those of the
/// condition.
pub open spec fn join_parts<'a>(x: Join) -> Seq<Leaf<'a>>
    decreases x, 3int, 0int,
{
    table_factor_parts(x.relation)
        + join_operator_parts(x.join_operator)
}

/// Gathers what `join_parts` names, in order.
pub fn gather_join<'a>(x: &'a Join, v: &mut Vec<Leaf<'a>>)
    ensures
        final(v)@ == gathered(old(v)@, join_parts(*x)),
    decreases x, 3int, 0int,
{
    gather_table_factor(&x.relation, v);
    gather_join_operator(&x.join_operator, v);
}

/// The leaves of the joins of `s`, join after join.
pub open spec fn joins_parts<'a>(s: Seq<Join>) -> Seq<Leaf<'a>>
    decreases s, 0int, 0int,
{
    if s.len() == 0 {
        Seq::empty()
    } else {
        joins_parts(s.drop_last()) + join_parts(s.last())
    }
}

/// Gathers what `joins_parts` names, in order.
#[verifier::loop_isolation(false)]
pub fn gather_joins<'a>(list: &'a Vec<Join>, v: &mut Vec<Leaf<'a>>)
    ensures
        final(v)@ == gathered(old(v)@, joins_parts(list@)),
    decreases list, 0int, 0int,
{
    let mut i: usize = 0;
    assert(list@.take(0) =~= Seq::<Join>::empty());
    while i < list.len()
        invariant
            0 <= i <= list.len(),
            v@ == gathered(old(v)@, joins_parts::<'a>(list@.take(i as int))),
        decreases list.len() - i,
    {
        proof {
            axiom_vec_index_decreases(*list, i as int);
        }
        proof {
            assert(list@.take(i + 1).drop_last() =~= list@.take(i as int));
        }
        gather_join(&list[i], v);
        i = i + 1;
    }
    assert(list@.take(list@.len() as int) =~= list@);
}

/// The leaves of a table factor.
pub open spec fn table_factor_parts<'a>(x: TableFactor) -> Seq<Leaf<'a>>
    decreases x, 1int, 0int,
{
    match x {
        TableFactor::Table { name, alias, args, with_hints } => seq![Leaf::Object(&name)]
            + function_args_parts(args@)
            + optional_alias_parts(alias)
            + exprs_parts(with_hints@),
        TableFactor::Derived { subquery, alias, .. } =>
            query_parts(*subquery) + optional_alias_parts(alias),
        TableFactor::TableFunction { expr, alias } =>
            expr_parts(expr) + optional_alias_parts(alias),
        TableFactor::NestedJoin(inner) => table_with_joins_parts(*inner),
    }
}

/// Gathers what `table_factor_parts` names, in order.
pub fn gather_table_factor<'a>(x: &'a TableFactor, v: &mut Vec<Leaf<'a>>)
    ensures
        final(v)@ == gathered(old(v)@, table_factor_parts(*x)),
    decreases x, 1int, 0int,
{
    match x {
        TableFactor::Table { name, alias, args, with_hints } => {
            gather(v, Leaf::Object(name));
            gather_function_args(args, v);
            gather_optional_alias(alias, v);
            gather_exprs(with_hints, v);
        },
        TableFactor::Derived { subquery, alias, .. } => {
            gather_query(subquery, v);
            gather_optional_alias(alias, v);
        },
        TableFactor::TableFunction { expr, alias } => {
            gather_expr(expr, v);
            gather_optional_alias(alias, v);
        },
        TableFactor::NestedJoin(inner) => {
            gather_table_with_joins(inner, v);
        },
    }
}

/// The leaves of a table with the joins that follow it.
pub open spec fn table_with_joins_parts<'a>(x: TableWithJoins) -> Seq<Leaf<'a>>
    decreases x, 1int, 0int,
{
    table_factor_parts(x.relation) + joins_parts(x.joins@)
}

/// Gathers what `table_with_joins_parts` names, in order.
pub fn gather_table_with_joins<'a>(x: &'a TableWithJoins, v: &mut Vec<Leaf<'a>>)
    ensures
        final(v)@ == gathered(old(v)@, table_with_joins_parts(*x)),
    decreases x, 1int, 0int,
{
    gather_table_factor(&x.relation, v);
    gather_joins(&x.joins, v);
}

/// The leaves of the tables of `s`, table after table.
pub open spec fn tables_with_joins_parts<'a>(s: Seq<TableWithJoins>) -> Seq<Leaf<'a>>
    decreases s, 0int, 0int,
{
    if s.len() == 0 {
        Seq::empty()
    } else {
        tables_with_joins_parts(s.drop_last()) + table_with_joins_parts(s.last())
    }
}

/// Gathers what `tables_with_joins_parts` names, in order.
#[verifier::loop_isolation(false)]
pub fn gather_tables_with_joins<'a>(list: &'a Vec<TableWithJoins>, v: &mut Vec<Leaf<'a>>)
    ensures
        final(v)@ == gathered(old(v)@, tables_with_joins_parts(list@)),
    decreases list, 0int, 0int,
{
    let mut i: usize = 0;
    assert(list@.take(0) =~= Seq::<TableWithJoins>::empty());
    while i < list.len()
        invariant
            0 <= i <= list.len(),
            v@ == gathered(old(v)@, tables_with_joins_parts::<'a>(list@.take(i as int))),
        decreases list.len() - i,
    {
        proof {
            axiom_vec_index_decreases(*list, i as int);
        }
        proof {
            assert(list@.take(i + 1).drop_last() =~= list@.take(i as int));
        }
        gather_table_with_joins(&list[i], v);
        i = i + 1;
    }
    assert(list@.take(list@.len() as int) =~= list@);
}

/// The leaves of a lateral view.
pub open spec fn lateral_view_parts<'a>(x: LateralView) -> Seq<Leaf<'a>>
    decreases x, 1int, 0int,
{
    expr_parts(x.lateral_view)
        + seq![Leaf::Object(&x.lateral_view_name)]
        + name_leaves(x.lateral_col_alias@)
}

/// Gathers what `lateral_view_parts` names, in order.
pub fn gather_lateral_view<'a>(x: &'a LateralView, v: &mut Vec<Leaf<'a>>)
    ensures
        final(v)@ == gathered(old(v)@, lateral_view_parts(*x)),
    decreases x, 1int, 0int,
{
    gather_expr(&x.lateral_view, v);
    gather(v, Leaf::Object(&x.lateral_view_name));
    gather_names(&x.lateral_col_alias, v);
}

/// The leaves of the lateral views of `s`, view after view.
pub open spec fn lateral_views_parts<'a>(s: Seq<LateralView>) -> Seq<Leaf<'a>>
    decreases s, 0int, 0int,
{
    if s.len() == 0 {
        Seq::empty()
    } else {
        lateral_views_parts(s.drop_last()) + lateral_view_parts(s.last())
    }
}

/// Gathers what `lateral_views_parts` names, in order.
#[verifier::loop_isolation(false)]
pub fn gather_lateral_views<'a>(list: &'a Vec<LateralView>, v: &mut Vec<Leaf<'a>>)
    ensures
        final(v)@ == gathered(old(v)@, lateral_views_parts(list@)),
    decreases list, 0int, 0int,
{
    let mut i: usize = 0;
    assert(list@.take(0) =~= Seq::<LateralView>::empty());
    while i < list.len()
        invariant
            0 <= i <= list.len(),
            v@ == gathered(old(v)@, lateral_views_parts::<'a>(list@.take(i as int))),
        decreases list.len() - i,
    {
        proof {
            axiom_vec_index_decreases(*list, i as int);
        }
        proof {
            assert(list@.take(i + 1).drop_last() =~= list@.take(i as int));
        }
        gather_lateral_view(&list[i], v);
        i = i + 1;
    }
    assert(list@.take(list@.len() as int) =~= list@);
}

/// The leaves of the `WITH` clause, where there is one.
pub open spec fn optional_with_parts<'a>(x: Option<With>) -> Seq<Leaf<'a>>
    decreases x, 2int, 0int,
{
    match x {
        Some(w) => with_parts(w),
        None => Seq::empty(),
    }
}

/// Gathers what `optional_with_parts` names, in order.
pub fn gather_optional_with<'a>(x: &'a Option<With>, v: &mut Vec<Leaf<'a>>)
    ensures
        final(v)@ == gathered(old(v)@, optional_with_parts(*x)),
    decreases x, 2int, 0int,
{
    match x {
        Some(w) => {
            gather_with(w, v);
        },
        None => {},
    }
}

/// The leaves of a `TOP` clause.
pub open spec fn top_parts<'a>(x: Top) -> Seq<Leaf<'a>>
    decreases x, 1int, 0int,
{
    optional_expr_parts(x.quantity)
}

/// Gathers what `top_parts` names, in order.
pub fn gather_top<'a>(x: &'a Top, v: &mut Vec<Leaf<'a>>)
    ensures
        final(v)@ == gathered(old(v)@, top_parts(*x)),
    decreases x, 1int, 0int,
{
    gather_optional_expr(&x.quantity, v);
}

/// The leaves of the `TOP` clause, where there is one.
pub open spec fn optional_top_parts<'a>(x: Option<Top>) -> Seq<Leaf<'a>>
    decreases x, 2int, 0int,
{
    match x {
        Some(t) => top_parts(t),
        None => Seq::empty(),
    }
}

/// Gathers what `optional_top_parts` names, in order.
pub fn gather_optional_top<'a>(x: &'a Option<Top>, v: &mut Vec<Leaf<'a>>)
    ensures
        final(v)@ == gathered(old(v)@, optional_top_parts(*x)),
    decreases x, 2int, 0int,
{
    match x {
        Some(t) => {
            gather_top(t, v);
        },
        None => {},
    }
}

/// The leaves of a `FETCH` clause.
pub open spec fn fetch_parts<'a>(x: Fetch) -> Seq<Leaf<'a>>
    decreases x, 1int, 0int,
{
    optional_expr_parts(x.quantity)
}

/// Gathers what `fetch_parts` names, in order.
pub fn gather_fetch<'a>(x: &'a Fetch, v: &mut Vec<Leaf<'a>>)
    ensures
        final(v)@ == gathered(old(v)@, fetch_parts(*x)),
    decreases x, 1int, 0int,
{
    gather_optional_expr(&x.quantity, v);
}

/// The leaves of the `FETCH` clause, where there is one.
pub open spec fn optional_fetch_parts<'a>(x: Option<Fetch>) -> Seq<Leaf<'a>>
    decreases x, 2int, 0int,
{
    match x {
        Some(t) => fetch_parts(t),
        None => Seq::empty(),
    }
}

/// Gathers what `optional_fetch_parts` names, in order.
pub fn gather_optional_fetch<'a>(x: &'a Option<Fetch>, v: &mut Vec<Leaf<'a>>)
    ensures
        final(v)@ == gathered(old(v)@, optional_fetch_parts(*x)),
    decreases x, 2int, 0int,
{
    match x {
        Some(t) => {
            gather_fetch(t, v);
        },
        None => {},
    }
}

/// The leaves of an `OFFSET` clause.
pub open spec fn offset_parts<'a>(x: Offset) -> Seq<Leaf<'a>>
    decreases x, 1int, 0int,
{
    expr_parts(x.value)
}

/// Gathers what `offset_parts` names, in order.
pub fn gather_offset<'a>(x: &'a Offset, v: &mut Vec<Leaf<'a>>)
    ensures
        final(v)@ == gathered(old(v)@, offset_parts(*x)),
    decreases x, 1int, 0int,
{
    gather_expr(&x.value, v);
}

/// The leaves of the `OFFSET` clause, where there is one.
pub open spec fn optional_offset_parts<'a>(x: Option<Offset>) -> Seq<Leaf<'a>>
    decreases x, 2int, 0int,
{
    match x {
        Some(o) => offset_parts(o),
        None => Seq::empty(),
    }
}

/// Gathers what `optional_offset_parts` names, in order.
pub fn gather_optional_offset<'a>(x: &'a Option<Offset>, v: &mut Vec<Leaf<'a>>)
    ensures
        final(v)@ == gathered(old(v)@, optional_offset_parts(*x)),
    decreases x, 2int, 0int,
{
    match x {
        Some(o) => {
            gather_offset(o, v);
        },
        None => {},
    }
}

/// The leaves of the rows of `s`, row after row.
pub open spec fn rows_parts<'a>(s: Seq<Vec<Expr>>) -> Seq<Leaf<'a>>
    decreases s, 0int, 0int,
{
    if s.len() == 0 {
        Seq::empty()
    } else {
        rows_parts(s.drop_last()) + exprs_parts(s.last()@)
    }
}

/// Gathers what `rows_parts` names, in order.
#[verifier::loop_isolation(false)]
pub fn gather_rows<'a>(list: &'a Vec<Vec<Expr>>, v: &mut Vec<Leaf<'a>>)
    ensures
        final(v)@ == gathered(old(v)@, rows_parts(list@)),
    decreases list, 0int, 0int,
{
    let mut i: usize = 0;
    assert(list@.take(0) =~= Seq::<Vec<Expr>>::empty());
    while i < list.len()
        invariant
            0 <= i <= list.len(),
            v@ == gathered(old(v)@, rows_parts::<'a>(list@.take(i as int))),
        decreases list.len() - i,
    {
        proof {
            axiom_vec_index_decreases(*list, i as int);
        }
        proof {
            assert(list@.take(i + 1).drop_last() =~= list@.take(i as int));
        }
        gather_exprs(&list[i], v);
        i = i + 1;
    }
    assert(list@.take(list@.len() as int) =~= list@);
}

/// The leaves of a `VALUES` list.
pub open spec fn values_parts<'a>(x: Values) -> Seq<Leaf<'a>>
    decreases x, 1int, 0int,
{
    rows_parts(x.0@)
}

/// Gathers what `values_parts` names, in order.
pub fn gather_values<'a>(x: &'a Values, v: &mut Vec<Leaf<'a>>)
    ensures
        final(v)@ == gathered(old(v)@, values_parts(*x)),
    decreases x, 1int, 0int,
{
    gather_rows(&x.0, v);
}

/// The leaves of the head of a `SELECT`: of its `TOP` clause, its projection,
/// its tables and its lateral views.
pub open spec fn select_head_parts<'a>(x: Select) -> Seq<Leaf<'a>>
    decreases x, 1int, 0int,
{
    optional_top_parts(x.top)
        + select_items_parts(x.projection@)
        + tables_with_joins_parts(x.from@)
        + lateral_views_parts(x.lateral_views@)
}

/// Gathers what `select_head_parts` names, in order.
fn gather_select_head<'a>(x: &'a Select, v: &mut Vec<Leaf<'a>>)
    ensures
        final(v)@ == gathered(old(v)@, select_head_parts(*x)),
    decreases x, 1int, 0int,
{
    gather_optional_top(&x.top, v);
    gather_select_items(&x.projection, v);
    gather_tables_with_joins(&x.from, v);
    gather_lateral_views(&x.lateral_views, v);
}

/// The leaves of the clauses of a `SELECT` from `WHERE` on.
pub open spec fn select_tail_parts<'a>(x: Select) -> Seq<Leaf<'a>>
    decreases x, 1int, 0int,
{
    optional_expr_parts(x.selection)
        + exprs_parts(x.group_by@)
        + exprs_parts(x.cluster_by@)
        + exprs_parts(x.distribute_by@)
        + exprs_parts(x.sort_by@)
        + optional_expr_parts(x.having)
}

/// Gathers what `select_tail_parts` names, in order.
fn gather_select_tail<'a>(x: &'a Select, v: &mut Vec<Leaf<'a>>)
    ensures
        final(v)@ == gathered(old(v)@, select_tail_parts(*x)),
    decreases x, 1int, 0int,
{
    gather_optional_expr(&x.selection, v);
    gather_exprs(&x.group_by, v);
    gather_exprs(&x.cluster_by, v);
    gather_exprs(&x.distribute_by, v);
    gather_exprs(&x.sort_by, v);
    gather_optional_expr(&x.having, v);
}

/// The leaves of a `SELECT`, clause after clause.
pub open spec fn select_parts<'a>(x: Select) -> Seq<Leaf<'a>>
    decreases x, 2int, 0int,
{
    select_head_parts(x) + select_tail_parts(x)
}

/// Gathers what `select_parts` names, in order.
pub fn gather_select<'a>(x: &'a Select, v: &mut Vec<Leaf<'a>>)
    ensures
        final(v)@ == gathered(old(v)@, select_parts(*x)),
    decreases x, 2int, 0int,
{
    gather_select_head(x, v);
    gather_select_tail(x, v);
}

/// The leaves of a query body.
pub open spec fn set_expr_parts<'a>(x: SetExpr) -> Seq<Leaf<'a>>
    decreases x, 1int, 0int,
{
    match x {
        SetExpr::Select(sel) => select_parts(*sel),
        SetExpr::Query(q) => query_parts(*q),
        SetExpr::SetOperation { left, right, .. } =>
            set_expr_parts(*left) + set_expr_parts(*right),
        SetExpr::Values(values) => values_parts(values),
        SetExpr::Insert(stmt) => statement_parts(stmt),
    }
}

/// Gathers what `set_expr_parts` names, in order.
pub fn gather_set_expr<'a>(x: &'a SetExpr, v: &mut Vec<Leaf<'a>>)
    ensures
        final(v)@ == gathered(old(v)@, set_expr_parts(*x)),
    decreases x, 1int, 0int,
{
    match x {
        SetExpr::Select(sel) => {
            gather_select(sel, v);
        },
        SetExpr::Query(q) => {
            gather_query(q, v);
        },
        SetExpr::SetOperation { left, right, .. } => {
            gather_set_expr(left, v);
            gather_set_expr(right, v);
        },
        SetExpr::Values(values) => {
            gather_values(values, v);
        },
        SetExpr::Insert(stmt) => {
            gather_statement(stmt, v);
        },
    }
}

/// The leaves of a query, clause after clause.
pub open spec fn query_parts<'a>(x: Query) -> Seq<Leaf<'a>>
    decreases x, 1int, 0int,
{
    optional_with_parts(x.with)
        + set_expr_parts(x.body)
        + order_by_exprs_parts(x.order_by@)
        + optional_expr_parts(x.limit)
        + optional_offset_parts(x.offset)
        + optional_fetch_parts(x.fetch)
}

/// Gathers what `query_parts` names, in order.
pub fn gather_query<'a>(x: &'a Query, v: &mut Vec<Leaf<'a>>)
    ensures
        final(v)@ == gathered(old(v)@, query_parts(*x)),
    decreases x, 1int, 0int,
{
    gather_optional_with(&x.with, v);
    gather_set_expr(&x.body, v);
    gather_order_by_exprs(&x.order_by, v);
    gather_optional_expr(&x.limit, v);
    gather_optional_offset(&x.offset, v);
    gather_optional_fetch(&x.fetch, v);
}

impl SQLAnalyse for OrderByExpr {
    /// The facts of the node are those of its leaves, in the order in
    /// which they are written.
    open spec fn facts(&self) -> Seq<Fact> {
        facts_of_all(order_by_expr_parts(*self))
    }

    fn analyse<A: Accumulator>(&self, ctx: &mut Traced<A>) -> (r: SAResult) {
        let mut leaves: Vec<Leaf<'_>> = Vec::new();
        gather_order_by_expr(self, &mut leaves);
        analyse_all(&leaves, ctx)
    }
}

impl SQLAnalyse for TableAlias {
    /// The facts of the node are those of its leaves, in the order in
    /// which they are written.
    open spec fn facts(&self) -> Seq<Fact> {
        facts_of_all(table_alias_parts(*self))
    }

    fn analyse<A: Accumulator>(&self, ctx: &mut Traced<A>) -> (r: SAResult) {
        let mut leaves: Vec<Leaf<'_>> = Vec::new();
        gather_table_alias(self, &mut leaves);
        analyse_all(&leaves, ctx)
    }
}

impl SQLAnalyse for Cte {
    /// The facts of the node are those of its leaves, in the order in
    /// which they are written.
    open spec fn facts(&self) -> Seq<Fact> {
        facts_of_all(cte_parts(*self))
    }

    fn analyse<A: Accumulator>(&self, ctx: &mut Traced<A>) -> (r: SAResult) {
        let mut leaves: Vec<Leaf<'_>> = Vec::new();
        gather_cte(self, &mut leaves);
        analyse_all(&leaves, ctx)
    }
}

impl SQLAnalyse for With {
    /// The facts of the node are those of its leaves, in the order in
    /// which they are written.
    open spec fn facts(&self) -> Seq<Fact> {
        facts_of_all(with_parts(*self))
    }

    fn analyse<A: Accumulator>(&self, ctx: &mut Traced<A>) -> (r: SAResult) {
        let mut leaves: Vec<Leaf<'_>> = Vec::new();
        gather_with(self, &mut leaves);
        analyse_all(&leaves, ctx)
    }
}

impl SQLAnalyse for SelectItem {
    /// The facts of the node are those of its leaves, in the order in
    /// which they are written.
    open spec fn facts(&self) -> Seq<Fact> {
        facts_of_all(select_item_parts(*self))
    }

    fn analyse<A: Accumulator>(&self, ctx: &mut Traced<A>) -> (r: SAResult) {
        let mut leaves: Vec<Leaf<'_>> = Vec::new();
        gather_select_item(self, &mut leaves);
        analyse_all(&leaves, ctx)
    }
}

impl SQLAnalyse for Join {
    /// The facts of the node are those of its leaves, in the order in
    /// which they are written.
    open spec fn facts(&self) -> Seq<Fact> {
        facts_of_all(join_parts(*self))
    }

    fn analyse<A: Accumulator>(&self, ctx: &mut Traced<A>) -> (r: SAResult) {
        let mut leaves: Vec<Leaf<'_>> = Vec::new();
        gather_join(self, &mut leaves);
        analyse_all(&leaves, ctx)
    }
}

impl SQLAnalyse for TableFactor {
    /// The facts of the node are those of its leaves, in the order in
    /// which they are written.
    open spec fn facts(&self) -> Seq<Fact> {
        facts_of_all(table_factor_parts(*self))
    }

    fn analyse<A: Accumulator>(&self, ctx: &mut Traced<A>) -> (r: SAResult) {
        let mut leaves: Vec<Leaf<'_>> = Vec::new();
        gather_table_factor(self, &mut leaves);
        analyse_all(&leaves, ctx)
    }
}

impl SQLAnalyse for TableWithJoins {
    /// The facts of the node are those of its leaves, in the order in
    /// which they are written.
    open spec fn facts(&self) -> Seq<Fact> {
        facts_of_all(table_with_joins_parts(*self))
    }

    fn analyse<A: Accumulator>(&self, ctx: &mut Traced<A>) -> (r: SAResult) {
        let mut leaves: Vec<Leaf<'_>> = Vec::new();
        gather_table_with_joins(self, &mut leaves);
        analyse_all(&leaves, ctx)
    }
}

impl SQLAnalyse for LateralView {
    /// The facts of the node are those of its leaves, in the order in
    /// which they are written.
    open spec fn facts(&self) -> Seq<Fact> {
        facts_of_all(lateral_view_parts(*self))
    }

    fn analyse<A: Accumulator>(&self, ctx: &mut Traced<A>) -> (r: SAResult) {
        let mut leaves: Vec<Leaf<'_>> = Vec::new();
        gather_lateral_view(self, &mut leaves);
        analyse_all(&leaves, ctx)
    }
}

impl SQLAnalyse for Top {
    /// The facts of the node are those of its leaves, in the order in
    /// which they are written.
    open spec fn facts(&self) -> Seq<Fact> {
        facts_of_all(top_parts(*self))
    }

    fn analyse<A: Accumulator>(&self, ctx: &mut Traced<A>) -> (r: SAResult) {
        let mut leaves: Vec<Leaf<'_>> = Vec::new();
        gather_top(self, &mut leaves);
        analyse_all(&leaves, ctx)
    }
}

impl SQLAnalyse for Fetch {
    /// The facts of the node are those of its leaves, in the order in
    /// which they are written.
    open spec fn facts(&self) -> Seq<Fact> {
        facts_of_all(fetch_parts(*self))
    }

    fn analyse<A: Accumulator>(&self, ctx: &mut Traced<A>) -> (r: SAResult) {
        let mut leaves: Vec<Leaf<'_>> = Vec::new();
        gather_fetch(self, &mut leaves);
        analyse_all(&leaves, ctx)
    }
}

impl SQLAnalyse for Offset {
    /// The facts of the node are those of its leaves, in the order in
    /// which they are written.
    open spec fn facts(&self) -> Seq<Fact> {
        facts_of_all(offset_parts(*self))
    }

    fn analyse<A: Accumulator>(&self, ctx: &mut Traced<A>) -> (r: SAResult) {
        let mut leaves: Vec<Leaf<'_>> = Vec::new();
        gather_offset(self, &mut leaves);
        analyse_all(&leaves, ctx)
    }
}

impl SQLAnalyse for Values {
    /// The facts of the node are those of its leaves, in the order in
    /// which they are written.
    open spec fn facts(&self) -> Seq<Fact> {
        facts_of_all(values_parts(*self))
    }

    fn analyse<A: Accumulator>(&self, ctx: &mut Traced<A>) -> (r: SAResult) {
        let mut leaves: Vec<Leaf<'_>> = Vec::new();
        gather_values(self, &mut leaves);
        analyse_all(&leaves, ctx)
    }
}

impl SQLAnalyse for Select {
    /// The facts of the node are those of its leaves, in the order in
    /// which they are written.
    open spec fn facts(&self) -> Seq<Fact> {
        facts_of_all(select_parts(*self))
    }

    fn analyse<A: Accumulator>(&self, ctx: &mut Traced<A>) -> (r: SAResult) {
        let mut leaves: Vec<Leaf<'_>> = Vec::new();
        gather_select(self, &mut leaves);
        analyse_all(&leaves, ctx)
    }
}

impl SQLAnalyse for SetExpr {
    /// The facts of the node are those of its leaves, in the order in
    /// which they are written.
    open spec fn facts(&self) -> Seq<Fact> {
        facts_of_all(set_expr_parts(*self))
    }

    fn analyse<A: Accumulator>(&self, ctx: &mut Traced<A>) -> (r: SAResult) {
        let mut leaves: Vec<Leaf<'_>> = Vec::new();
        gather_set_expr(self, &mut leaves);
        analyse_all(&leaves, ctx)
    }
}

impl SQLAnalyse for Query {
    /// The facts of the node are those of its leaves, in the order in
    /// which they are written.
    open spec fn facts(&self) -> Seq<Fact> {
        facts_of_all(query_parts(*self))
    }

    fn analyse<A: Accumulator>(&self, ctx: &mut Traced<A>) -> (r: SAResult) {
        let mut leaves: Vec<Leaf<'_>> = Vec::new();
        gather_query(self, &mut leaves);
        analyse_all(&leaves, ctx)
    }
}

} // verus!
