//! The leaves of expressions.

use vstd::prelude::*;
use vstd::std_specs::vec::axiom_vec_index_decreases;
use crate::analyse::Accumulator;
use crate::analyse::Fact;
use crate::analyse::Leaf;
use crate::analyse::SAResult;
use crate::analyse::SQLAnalyse;
use crate::analyse::Traced;
use crate::analyse::analyse_all;
use crate::analyse::facts_of_all;
use crate::analyse::gather;
use crate::analyse::gathered;
use crate::analyse::query::gather_order_by_exprs;
use crate::analyse::query::gather_query;
use crate::analyse::query::order_by_exprs_parts;
use crate::analyse::query::query_parts;
use crate::expr::Expr;
use crate::expr::Function;
use crate::expr::FunctionArg;
use crate::expr::ListAgg;
use crate::expr::ListAggOnOverflow;
use crate::expr::WindowSpec;
use crate::ident::Ident;

verus! {

broadcast use crate::analyse::group_gather;

/// The identifiers of `s` as names, in order.
pub open spec fn name_leaves<'a>(s: Seq<Ident>) -> Seq<Leaf<'a>> {
    Seq::new(s.len(), |i: int| Leaf::Name(&s[i]))
}

/// Gathers the identifiers of `list` as names, in order.
pub fn gather_names<'a>(list: &'a Vec<Ident>, v: &mut Vec<Leaf<'a>>)
    ensures
        final(v)@ == gathered(old(v)@, name_leaves(list@)),
{
    let ghost leaves = name_leaves(list@);
    let mut i: usize = 0;
    assert(v@ =~= gathered(old(v)@, leaves.take(0)));
    while i < list.len()
        invariant
            0 <= i <= list.len(),
            leaves == name_leaves::<'a>(list@),
            v@ == gathered(old(v)@, leaves.take(i as int)),
        decreases list.len() - i,
    {
        v.push(Leaf::Name(&list[i]));
        assert(v@ =~= gathered(old(v)@, leaves.take(i + 1)));
        i = i + 1;
    }
    assert(leaves.take(list@.len() as int) =~= leaves);
}

/// The name, where there is one.
pub open spec fn optional_name_parts<'a>(x: Option<Ident>) -> Seq<Leaf<'a>>
    decreases x, 1int, 0int,
{
    match x {
        Some(id) => seq![Leaf::Name(&id)],
        None => Seq::empty(),
    }
}

/// Gathers what `optional_name_parts` names, in order.
pub fn gather_optional_name<'a>(x: &'a Option<Ident>, v: &mut Vec<Leaf<'a>>)
    ensures
        final(v)@ == gathered(old(v)@, optional_name_parts(*x)),
    decreases x, 1int, 0int,
{
    match x {
        Some(id) => {
            gather(v, Leaf::Name(id));
        },
        None => {},
    }
}

/// The leaves of the expressions of `s`, expression after expression.
pub open spec fn exprs_parts<'a>(s: Seq<Expr>) -> Seq<Leaf<'a>>
    decreases s, 0int, 0int,
{
    if s.len() == 0 {
        Seq::empty()
    } else {
        exprs_parts(s.drop_last()) + expr_parts(s.last())
    }
}

/// Gathers what `exprs_parts` names, in order.
#[verifier::loop_isolation(false)]
pub fn gather_exprs<'a>(list: &'a Vec<Expr>, v: &mut Vec<Leaf<'a>>)
    ensures
        final(v)@ == gathered(old(v)@, exprs_parts(list@)),
    decreases list, 0int, 0int,
{
    let mut i: usize = 0;
    assert(list@.take(0) =~= Seq::<Expr>::empty());
    while i < list.len()
        invariant
            0 <= i <= list.len(),
            v@ == gathered(old(v)@, exprs_parts::<'a>(list@.take(i as int))),
        decreases list.len() - i,
    {
        proof {
            axiom_vec_index_decreases(*list, i as int);
        }
        proof {
            assert(list@.take(i + 1).drop_last() =~= list@.take(i as int));
        }
        gather_expr(&list[i], v);
        i = i + 1;
    }
    assert(list@.take(list@.len() as int) =~= list@);
}

/// The leaves of the expression, where there is one.
pub open spec fn optional_expr_parts<'a>(x: Option<Expr>) -> Seq<Leaf<'a>>
    decreases x, 3int, 0int,
{
    match x {
        Some(e) => expr_parts(e),
        None => Seq::empty(),
    }
}

/// Gathers what `optional_expr_parts` names, in order.
pub fn gather_optional_expr<'a>(x: &'a Option<Expr>, v: &mut Vec<Leaf<'a>>)
    ensures
        final(v)@ == gathered(old(v)@, optional_expr_parts(*x)),
    decreases x, 3int, 0int,
{
    match x {
        Some(e) => {
            gather_expr(e, v);
        },
        None => {},
    }
}

/// The leaves of the expression, where there is one.
pub open spec fn optional_boxed_expr_parts<'a>(x: Option<Box<Expr>>) -> Seq<Leaf<'a>>
    decreases x, 3int, 0int,
{
    match x {
        Some(e) => expr_parts(*e),
        None => Seq::empty(),
    }
}

/// Gathers what `optional_boxed_expr_parts` names, in order.
pub fn gather_optional_boxed_expr<'a>(x: &'a Option<Box<Expr>>, v: &mut Vec<Leaf<'a>>)
    ensures
        final(v)@ == gathered(old(v)@, optional_boxed_expr_parts(*x)),
    decreases x, 3int, 0int,
{
    match x {
        Some(e) => {
            gather_expr(e, v);
        },
        None => {},
    }
}

/// The leaves of the arms of a `CASE` expression: of each condition that has
/// a result, those of the condition and then those of the result.
pub open spec fn case_arms_parts<'a>(e: Expr, n: nat) -> Seq<Leaf<'a>>
    decreases e, 1int, n,
{
    match e {
        Expr::Case { operand, conditions, results, else_result } => if n == 0 || n
            > conditions@.len() || n > results@.len() {
            Seq::empty()
        } else {
            case_arms_parts(e, (n - 1) as nat) + expr_parts(conditions@[n - 1]) + expr_parts(
                results@[n - 1],
            )
        },
        _ => Seq::empty(),
    }
}

/// The number of arms of a `CASE` expression: that of the conditions that
/// have a result.
pub open spec fn case_arms_count(e: Expr) -> nat {
    match e {
        Expr::Case { operand, conditions, results, else_result } => if conditions@.len()
            <= results@.len() {
            conditions@.len()
        } else {
            results@.len()
        },
        _ => 0,
    }
}

#[verifier::loop_isolation(false)]
fn gather_case_arms<'a>(e: &'a Expr, v: &mut Vec<Leaf<'a>>)
    requires
        e is Case,
    ensures
        final(v)@ == gathered(old(v)@, case_arms_parts(*e, case_arms_count(*e))),
    decreases e, 1int, 0int,
{
    if let Expr::Case { operand, conditions, results, else_result } = e {
        let n = if conditions.len() <= results.len() {
            conditions.len()
        } else {
            results.len()
        };
        let mut i: usize = 0;
        while i < n
            invariant
                0 <= i <= n,
                v@ == gathered(old(v)@, case_arms_parts::<'a>(*e, i as nat)),
            decreases n - i,
        {
            proof {
                axiom_vec_index_decreases(*conditions, i as int);
                axiom_vec_index_decreases(*results, i as int);
            }
            gather_expr(&conditions[i], v);
            gather_expr(&results[i], v);
            i = i + 1;
        }
    }
}

/// The leaves of an expression, in the order in which they are written: the
/// names, data types and literal values of every part that has a text.
pub open spec fn expr_parts<'a>(e: Expr) -> Seq<Leaf<'a>>
    decreases e, 2int, 0int,
{
    match e {
        Expr::Identifier(id) => seq![Leaf::Name(&id)],
        Expr::MapAccess { column, .. } => expr_parts(*column),
        Expr::Wildcard => Seq::empty(),
        Expr::QualifiedWildcard(q) => name_leaves(q@),
        Expr::CompoundIdentifier(parts) => name_leaves(parts@),
        Expr::IsNull(inner) => expr_parts(*inner),
        Expr::IsNotNull(inner) => expr_parts(*inner),
        Expr::InList { expr, list, .. } => expr_parts(*expr) + exprs_parts(list@),
        Expr::InSubquery { expr, subquery, .. } => expr_parts(*expr) + query_parts(*subquery),
        Expr::Between { expr, low, high, .. } =>
            expr_parts(*expr) + expr_parts(*low) + expr_parts(*high),
        Expr::BinaryOp { left, right, .. } => expr_parts(*left) + expr_parts(*right),
        Expr::UnaryOp { expr, .. } => expr_parts(*expr),
        Expr::Cast { expr, data_type } => expr_parts(*expr) + seq![Leaf::Type(&data_type)],
        Expr::TryCast { .. } => Seq::empty(),
        Expr::Extract { expr, .. } => expr_parts(*expr),
        Expr::Collate { expr, collation } => expr_parts(*expr) + seq![Leaf::Object(&collation)],
        Expr::Nested(inner) => expr_parts(*inner),
        Expr::Value(value) => seq![Leaf::Literal(&value)],
        Expr::TypedString { data_type, .. } => seq![Leaf::Type(&data_type)],
        Expr::Function(fun) => function_parts(fun),
        Expr::Case { operand, else_result, .. } => optional_boxed_expr_parts(operand)
            + case_arms_parts(e, case_arms_count(e))
            + optional_boxed_expr_parts(else_result),
        Expr::Exists(q) => query_parts(*q),
        Expr::Subquery(q) => query_parts(*q),
        Expr::ListAgg(agg) => list_agg_parts(agg),
        Expr::Substring { expr, substring_from, substring_for } => expr_parts(*expr)
            + optional_boxed_expr_parts(substring_from)
            + optional_boxed_expr_parts(substring_for),
        Expr::ParameterMark(_) => Seq::empty(),
    }
}

/// Gathers what `expr_parts` names, in order.
#[verifier::rlimit(50)]
pub fn gather_expr<'a>(e: &'a Expr, v: &mut Vec<Leaf<'a>>)
    ensures
        final(v)@ == gathered(old(v)@, expr_parts(*e)),
    decreases e, 2int, 0int,
{
    match e {
        Expr::Identifier(id) => {
            gather(v, Leaf::Name(id));
        },
        Expr::MapAccess { column, .. } => {
            gather_expr(column, v);
        },
        Expr::Wildcard => {},
        Expr::QualifiedWildcard(q) => {
            gather_names(q, v);
        },
        Expr::CompoundIdentifier(parts) => {
            gather_names(parts, v);
        },
        Expr::IsNull(inner) => {
            gather_expr(inner, v);
        },
        Expr::IsNotNull(inner) => {
            gather_expr(inner, v);
        },
        Expr::InList { expr, list, .. } => {
            gather_expr(expr, v);
            gather_exprs(list, v);
        },
        Expr::InSubquery { expr, subquery, .. } => {
            gather_expr(expr, v);
            gather_query(subquery, v);
        },
        Expr::Between { expr, low, high, .. } => {
            gather_expr(expr, v);
            gather_expr(low, v);
            gather_expr(high, v);
        },
        Expr::BinaryOp { left, right, .. } => {
            gather_expr(left, v);
            gather_expr(right, v);
        },
        Expr::UnaryOp { expr, .. } => {
            gather_expr(expr, v);
        },
        Expr::Cast { expr, data_type } => {
            gather_expr(expr, v);
            gather(v, Leaf::Type(data_type));
        },
        Expr::TryCast { .. } => {},
        Expr::Extract { expr, .. } => {
            gather_expr(expr, v);
        },
        Expr::Collate { expr, collation } => {
            gather_expr(expr, v);
            gather(v, Leaf::Object(collation));
        },
        Expr::Nested(inner) => {
            gather_expr(inner, v);
        },
        Expr::Value(value) => {
            gather(v, Leaf::Literal(value));
        },
        Expr::TypedString { data_type, .. } => {
            gather(v, Leaf::Type(data_type));
        },
        Expr::Function(fun) => {
            gather_function(fun, v);
        },
        Expr::Case { operand, else_result, .. } => {
            gather_optional_boxed_expr(operand, v);
            gather_case_arms(e, v);
            gather_optional_boxed_expr(else_result, v);
        },
        Expr::Exists(q) => {
            gather_query(q, v);
        },
        Expr::Subquery(q) => {
            gather_query(q, v);
        },
        Expr::ListAgg(agg) => {
            gather_list_agg(agg, v);
        },
        Expr::Substring { expr, substring_from, substring_for } => {
            gather_expr(expr, v);
            gather_optional_boxed_expr(substring_from, v);
            gather_optional_boxed_expr(substring_for, v);
        },
        Expr::ParameterMark(_) => {},
    }
}

/// The leaves of a window specification.
pub open spec fn window_spec_parts<'a>(x: WindowSpec) -> Seq<Leaf<'a>>
    decreases x, 1int, 0int,
{
    exprs_parts(x.partition_by@)
        + order_by_exprs_parts(x.order_by@)
}

/// Gathers what `window_spec_parts` names, in order.
pub fn gather_window_spec<'a>(x: &'a WindowSpec, v: &mut Vec<Leaf<'a>>)
    ensures
        final(v)@ == gathered(old(v)@, window_spec_parts(*x)),
    decreases x, 1int, 0int,
{
    gather_exprs(&x.partition_by, v);
    gather_order_by_exprs(&x.order_by, v);
}

/// The leaves of the window specification, where there is one.
pub open spec fn optional_window_spec_parts<'a>(x: Option<WindowSpec>) -> Seq<Leaf<'a>>
    decreases x, 2int, 0int,
{
    match x {
        Some(w) => window_spec_parts(w),
        None => Seq::empty(),
    }
}

/// Gathers what `optional_window_spec_parts` names, in order.
pub fn gather_optional_window_spec<'a>(x: &'a Option<WindowSpec>, v: &mut Vec<Leaf<'a>>)
    ensures
        final(v)@ == gathered(old(v)@, optional_window_spec_parts(*x)),
    decreases x, 2int, 0int,
{
    match x {
        Some(w) => {
            gather_window_spec(w, v);
        },
        None => {},
    }
}

/// The leaves of a function argument.
pub open spec fn function_arg_parts<'a>(x: FunctionArg) -> Seq<Leaf<'a>>
    decreases x, 3int, 0int,
{
    match x {
        FunctionArg::Named { name, arg } => seq![Leaf::Name(&name)] + expr_parts(arg),
        FunctionArg::Unnamed(arg) => expr_parts(arg),
    }
}

/// Gathers what `function_arg_parts` names, in order.
pub fn gather_function_arg<'a>(x: &'a FunctionArg, v: &mut Vec<Leaf<'a>>)
    ensures
        final(v)@ == gathered(old(v)@, function_arg_parts(*x)),
    decreases x, 3int, 0int,
{
    match x {
        FunctionArg::Named { name, arg } => {
            gather(v, Leaf::Name(name));
            gather_expr(arg, v);
        },
        FunctionArg::Unnamed(arg) => {
            gather_expr(arg, v);
        },
    }
}

/// The leaves of the function arguments of `s`, argument after argument.
pub open spec fn function_args_parts<'a>(s: Seq<FunctionArg>) -> Seq<Leaf<'a>>
    decreases s, 0int, 0int,
{
    if s.len() == 0 {
        Seq::empty()
    } else {
        function_args_parts(s.drop_last()) + function_arg_parts(s.last())
    }
}

/// Gathers what `function_args_parts` names, in order.
#[verifier::loop_isolation(false)]
pub fn gather_function_args<'a>(list: &'a Vec<FunctionArg>, v: &mut Vec<Leaf<'a>>)
    ensures
        final(v)@ == gathered(old(v)@, function_args_parts(list@)),
    decreases list, 0int, 0int,
{
    let mut i: usize = 0;
    assert(list@.take(0) =~= Seq::<FunctionArg>::empty());
    while i < list.len()
        invariant
            0 <= i <= list.len(),
            v@ == gathered(old(v)@, function_args_parts::<'a>(list@.take(i as int))),
        decreases list.len() - i,
    {
        proof {
            axiom_vec_index_decreases(*list, i as int);
        }
        proof {
            assert(list@.take(i + 1).drop_last() =~= list@.take(i as int));
        }
        gather_function_arg(&list[i], v);
        i = i + 1;
    }
    assert(list@.take(list@.len() as int) =~= list@);
}

/// The leaves of a function call: its name, its arguments, its window.
pub open spec fn function_parts<'a>(x: Function) -> Seq<Leaf<'a>>
    decreases x, 1int, 0int,
{
    seq![Leaf::Object(&x.name)]
        + function_args_parts(x.args@)
        + optional_window_spec_parts(x.over)
}

/// Gathers what `function_parts` names, in order.
pub fn gather_function<'a>(x: &'a Function, v: &mut Vec<Leaf<'a>>)
    ensures
        final(v)@ == gathered(old(v)@, function_parts(*x)),
    decreases x, 1int, 0int,
{
    gather(v, Leaf::Object(&x.name));
    gather_function_args(&x.args, v);
    gather_optional_window_spec(&x.over, v);
}

/// The leaves of the `ON OVERFLOW` clause of a `LISTAGG`.
pub open spec fn list_agg_on_overflow_parts<'a>(x: ListAggOnOverflow) -> Seq<Leaf<'a>>
    decreases x, 3int, 0int,
{
    match x {
        ListAggOnOverflow::Error => Seq::empty(),
        ListAggOnOverflow::Truncate { filler, .. } => optional_boxed_expr_parts(filler),
    }
}

/// Gathers what `list_agg_on_overflow_parts` names, in order.
pub fn gather_list_agg_on_overflow<'a>(x: &'a ListAggOnOverflow, v: &mut Vec<Leaf<'a>>)
    ensures
        final(v)@ == gathered(old(v)@, list_agg_on_overflow_parts(*x)),
    decreases x, 3int, 0int,
{
    match x {
        ListAggOnOverflow::Error => {},
        ListAggOnOverflow::Truncate { filler, .. } => {
            gather_optional_boxed_expr(filler, v);
        },
    }
}

/// The leaves of the `ON OVERFLOW` clause, where there is one.
pub open spec fn optional_list_agg_on_overflow_parts<'a>(
    x: Option<ListAggOnOverflow>,
) -> Seq<Leaf<'a>>
    decreases x, 4int, 0int,
{
    match x {
        Some(o) => list_agg_on_overflow_parts(o),
        None => Seq::empty(),
    }
}

/// Gathers what `optional_list_agg_on_overflow_parts` names, in order.
pub fn gather_optional_list_agg_on_overflow<'a>(
    x: &'a Option<ListAggOnOverflow>,
    v: &mut Vec<Leaf<'a>>,
)
    ensures
        final(v)@ == gathered(old(v)@, optional_list_agg_on_overflow_parts(*x)),
    decreases x, 4int, 0int,
{
    match x {
        Some(o) => {
            gather_list_agg_on_overflow(o, v);
        },
        None => {},
    }
}

/// The leaves of a `LISTAGG` invocation.
pub open spec fn list_agg_parts<'a>(x: ListAgg) -> Seq<Leaf<'a>>
    decreases x, 1int, 0int,
{
    expr_parts(*x.expr)
        + optional_boxed_expr_parts(x.separator)
        + optional_list_agg_on_overflow_parts(x.on_overflow)
        + order_by_exprs_parts(x.within_group@)
}

/// Gathers what `list_agg_parts` names, in order.
pub fn gather_list_agg<'a>(x: &'a ListAgg, v: &mut Vec<Leaf<'a>>)
    ensures
        final(v)@ == gathered(old(v)@, list_agg_parts(*x)),
    decreases x, 1int, 0int,
{
    gather_expr(&x.expr, v);
    gather_optional_boxed_expr(&x.separator, v);
    gather_optional_list_agg_on_overflow(&x.on_overflow, v);
    gather_order_by_exprs(&x.within_group, v);
}

impl SQLAnalyse for Expr {
    /// The facts of the node are those of its leaves, in the order in
    /// which they are written.
    open spec fn facts(&self) -> Seq<Fact> {
        facts_of_all(expr_parts(*self))
    }

    fn analyse<A: Accumulator>(&self, ctx: &mut Traced<A>) -> (r: SAResult) {
        let mut leaves: Vec<Leaf<'_>> = Vec::new();
        gather_expr(self, &mut leaves);
        analyse_all(&leaves, ctx)
    }
}

impl SQLAnalyse for WindowSpec {
    /// The facts of the node are those of its leaves, in the order in
    /// which they are written.
    open spec fn facts(&self) -> Seq<Fact> {
        facts_of_all(window_spec_parts(*self))
    }

    fn analyse<A: Accumulator>(&self, ctx: &mut Traced<A>) -> (r: SAResult) {
        let mut leaves: Vec<Leaf<'_>> = Vec::new();
        gather_window_spec(self, &mut leaves);
        analyse_all(&leaves, ctx)
    }
}

impl SQLAnalyse for FunctionArg {
    /// The facts of the node are those of its leaves, in the order in
    /// which they are written.
    open spec fn facts(&self) -> Seq<Fact> {
        facts_of_all(function_arg_parts(*self))
    }

    fn analyse<A: Accumulator>(&self, ctx: &mut Traced<A>) -> (r: SAResult) {
        let mut leaves: Vec<Leaf<'_>> = Vec::new();
        gather_function_arg(self, &mut leaves);
        analyse_all(&leaves, ctx)
    }
}

impl SQLAnalyse for Function {
    /// The facts of the node are those of its leaves, in the order in
    /// which they are written.
    open spec fn facts(&self) -> Seq<Fact> {
        facts_of_all(function_parts(*self))
    }

    fn analyse<A: Accumulator>(&self, ctx: &mut Traced<A>) -> (r: SAResult) {
        let mut leaves: Vec<Leaf<'_>> = Vec::new();
        gather_function(self, &mut leaves);
        analyse_all(&leaves, ctx)
    }
}

impl SQLAnalyse for ListAgg {
    /// The facts of the node are those of its leaves, in the order in
    /// which they are written.
    open spec fn facts(&self) -> Seq<Fact> {
        facts_of_all(list_agg_parts(*self))
    }

    fn analyse<A: Accumulator>(&self, ctx: &mut Traced<A>) -> (r: SAResult) {
        let mut leaves: Vec<Leaf<'_>> = Vec::new();
        gather_list_agg(self, &mut leaves);
        analyse_all(&leaves, ctx)
    }
}

impl SQLAnalyse for ListAggOnOverflow {
    /// The facts of the node are those of its leaves, in the order in
    /// which they are written.
    open spec fn facts(&self) -> Seq<Fact> {
        facts_of_all(list_agg_on_overflow_parts(*self))
    }

    fn analyse<A: Accumulator>(&self, ctx: &mut Traced<A>) -> (r: SAResult) {
        let mut leaves: Vec<Leaf<'_>> = Vec::new();
        gather_list_agg_on_overflow(self, &mut leaves);
        analyse_all(&leaves, ctx)
    }
}

} // verus!
