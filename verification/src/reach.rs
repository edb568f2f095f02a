//! How far a render context reaches: whatever stands below a statement, a
//! query or an expression, at any depth, is written under the context of
//! the whole, so that an identifier deep inside nested subqueries is
//! written exactly as it would be on its own.

use vstd::prelude::*;
use crate::context::Context;
use crate::expr::Expr;
use crate::expr::expr_text;
use crate::expr::expr_texts;
use crate::expr::optional_expr_text;
use crate::ident::Ident;
use crate::ident::ident_text;
use crate::ident::object_name_text;
use crate::ident::quoted;
use crate::operator::UnaryOperator;
use crate::operator::binary_operator_text;
use crate::operator::unary_operator_text;
use crate::query::Query;
use crate::query::Select;
use crate::query::SelectItem;
use crate::query::SetExpr;
use crate::query::TableFactor;
use crate::query::expr_clause_text;
use crate::query::from_clause_text;
use crate::query::join_texts;
use crate::query::lateral_view_texts;
use crate::query::optional_alias_text;
use crate::query::optional_fetch_text;
use crate::query::optional_offset_text;
use crate::query::optional_top_text;
use crate::query::optional_with_text;
use crate::query::order_by_clause_text;
use crate::query::query_text;
use crate::query::select_head_text;
use crate::query::select_item_text;
use crate::query::select_item_texts;
use crate::query::select_tail_text;
use crate::query::select_text;
use crate::query::set_expr_text;
use crate::query::table_factor_text;
use crate::query::table_with_joins_text;
use crate::query::table_with_joins_texts;
use crate::statement::Statement;
use crate::statement::assignment_texts;
use crate::statement::statement_text;
use crate::text::concatenated;
use crate::text::flag_text;
use crate::text::separated;

verus! {

/// Whether `part` stands in `whole` as one piece.
pub open spec fn embeds(whole: Seq<char>, part: Seq<char>) -> bool {
    exists|pre: Seq<char>, post: Seq<char>| whole == pre + part + post
}

/// A text that is `part` between two others holds `part` as one piece.
pub proof fn lemma_embeds(whole: Seq<char>, pre: Seq<char>, part: Seq<char>, post: Seq<char>)
    requires
        whole =~= pre + part + post,
    ensures
        embeds(whole, part),
{
    assert(whole == pre + part + post);
}

/// A text holds itself as one piece.
pub proof fn lemma_embeds_self(whole: Seq<char>)
    ensures
        embeds(whole, whole),
{
    lemma_embeds(whole, Seq::empty(), whole, Seq::empty());
}

/// What stands in a piece of a text stands in the text.
pub proof fn lemma_embeds_trans(a: Seq<char>, b: Seq<char>, c: Seq<char>)
    requires
        embeds(a, b),
        embeds(b, c),
    ensures
        embeds(a, c),
{
    let (p1, q1): (Seq<char>, Seq<char>) = choose|pre: Seq<char>, post: Seq<char>|
        a == pre + b + post;
    let (p2, q2): (Seq<char>, Seq<char>) = choose|pre: Seq<char>, post: Seq<char>|
        b == pre + c + post;
    lemma_embeds(a, p1 + p2, c, q2 + q1);
}

/// Every item of a joined list stands in the list as one piece.
pub proof fn lemma_separated_embeds(parts: Seq<Seq<char>>, sep: Seq<char>, i: int)
    requires
        0 <= i < parts.len(),
    ensures
        embeds(separated(parts, sep), parts[i]),
    decreases parts.len(),
{
    reveal(separated);
    if parts.len() == 1 {
        lemma_embeds_self(parts[0]);
    } else if i == parts.len() - 1 {
        lemma_embeds(
            separated(parts, sep),
            separated(parts.drop_last(), sep) + sep,
            parts[i],
            Seq::empty(),
        );
    } else {
        let front = parts.drop_last();
        lemma_separated_embeds(front, sep, i);
        assert(front[i] == parts[i]);
        lemma_embeds(
            separated(parts, sep),
            Seq::empty(),
            separated(front, sep),
            sep + parts.last(),
        );
        lemma_embeds_trans(separated(parts, sep), separated(front, sep), parts[i]);
    }
}

/// A place in a statement: a statement, a query or an expression.
pub enum Place {
    InStatement(Statement),
    InQuery(Query),
    InExpr(Expr),
}

/// One step down from a place to a place that stands in it.
pub enum Step {
    /// From a statement that is a query to the query.
    Query,
    /// From a query, an update or a delete to the expression of its `WHERE`.
    Where,
    /// From a query to the expression of the item of its projection at the
    /// given position.
    Projection(usize),
    /// From a query to the subquery that is the table at the given position
    /// of its `FROM`.
    From(usize),
    /// From a parenthesised subquery to the query.
    Subquery,
    /// From an `EXISTS` to its query.
    Exists,
    /// From an `IN` with a subquery to the subquery.
    InSubquery,
    /// From a parenthesised expression to the expression.
    Nested,
    /// From a binary operation to its left operand.
    Left,
    /// From a binary operation to its right operand.
    Right,
    /// From a unary operation or a null test to its operand, and from an
    /// `IN` or a `BETWEEN` to the expression that it tests.
    Operand,
}

/// The SQL text of what stands at a place.
pub open spec fn place_text(p: Place, ctx: Context) -> Seq<char> {
    match p {
        Place::InStatement(s) => statement_text(s, ctx),
        Place::InQuery(q) => query_text(q, ctx),
        Place::InExpr(e) => expr_text(e, ctx),
    }
}

/// Where a step leads from a statement, if it can be taken there.
pub open spec fn statement_step(s: Statement, step: Step) -> Option<Place> {
    match (step, s) {
        (Step::Query, Statement::Query(q)) => Some(Place::InQuery(*q)),
        (Step::Where, Statement::Delete { selection: Some(e), .. }) => Some(Place::InExpr(e)),
        (Step::Where, Statement::Update { selection: Some(e), .. }) => Some(Place::InExpr(e)),
        _ => None,
    }
}

/// Where a step leads from a `SELECT`, if it can be taken there.
pub open spec fn select_step(sel: Select, step: Step) -> Option<Place> {
    match step {
        Step::Where => match sel.selection {
            Some(e) => Some(Place::InExpr(e)),
            None => None,
        },
        Step::Projection(i) => if i < sel.projection@.len() {
            match sel.projection@[i as int] {
                SelectItem::UnnamedExpr(e) => Some(Place::InExpr(e)),
                SelectItem::ExprWithAlias { expr, alias } => Some(Place::InExpr(expr)),
                _ => None,
            }
        } else {
            None
        },
        Step::From(i) => if i < sel.from@.len() {
            match sel.from@[i as int].relation {
                TableFactor::Derived { lateral, subquery, alias } => Some(
                    Place::InQuery(*subquery),
                ),
                _ => None,
            }
        } else {
            None
        },
        _ => None,
    }
}

/// Where a step leads from a query, if it can be taken there.
pub open spec fn query_step(q: Query, step: Step) -> Option<Place> {
    match q.body {
        SetExpr::Select(sel) => select_step(*sel, step),
        _ => None,
    }
}

/// Where a step leads from an expression, if it can be taken there.
pub open spec fn expr_step(e: Expr, step: Step) -> Option<Place> {
    match (step, e) {
        (Step::Subquery, Expr::Subquery(q)) => Some(Place::InQuery(*q)),
        (Step::Exists, Expr::Exists(q)) => Some(Place::InQuery(*q)),
        (Step::InSubquery, Expr::InSubquery { expr, subquery, negated }) => Some(
            Place::InQuery(*subquery),
        ),
        (Step::Nested, Expr::Nested(inner)) => Some(Place::InExpr(*inner)),
        (Step::Left, Expr::BinaryOp { left, op, right }) => Some(Place::InExpr(*left)),
        (Step::Right, Expr::BinaryOp { left, op, right }) => Some(Place::InExpr(*right)),
        (Step::Operand, Expr::UnaryOp { op, expr }) => Some(Place::InExpr(*expr)),
        (Step::Operand, Expr::IsNull(inner)) => Some(Place::InExpr(*inner)),
        (Step::Operand, Expr::IsNotNull(inner)) => Some(Place::InExpr(*inner)),
        (Step::Operand, Expr::InList { expr, list, negated }) => Some(Place::InExpr(*expr)),
        (Step::Operand, Expr::InSubquery { expr, subquery, negated }) => Some(
            Place::InExpr(*expr),
        ),
        (Step::Operand, Expr::Between { expr, negated, low, high }) => Some(Place::InExpr(*expr)),
        _ => None,
    }
}

/// Where a step leads from a place, if it can be taken there.
pub open spec fn step_into(p: Place, step: Step) -> Option<Place> {
    match p {
        Place::InStatement(s) => statement_step(s, step),
        Place::InQuery(q) => query_step(q, step),
        Place::InExpr(e) => expr_step(e, step),
    }
}

/// Where a path of steps leads from a place, if every step can be taken.
pub open spec fn follow(p: Place, path: Seq<Step>) -> Option<Place>
    decreases path.len(),
{
    if path.len() == 0 {
        Some(p)
    } else {
        match step_into(p, path[0]) {
            Some(next) => follow(next, path.skip(1)),
            None => None,
        }
    }
}

/// The text of a statement holds, under the same context, the text of what
/// a step leads to.
#[verifier::rlimit(50)]
pub proof fn lemma_statement_step(s: Statement, step: Step, ctx: Context)
    requires
        statement_step(s, step) is Some,
    ensures
        embeds(statement_text(s, ctx), place_text(statement_step(s, step).unwrap(), ctx)),
{
    match s {
        Statement::Query(q) => {
            lemma_embeds_self(query_text(*q, ctx));
        },
        Statement::Delete { table_name, selection } => {
            let e = selection.unwrap();
            assert(optional_expr_text(" WHERE "@, selection, ctx) == " WHERE "@ + expr_text(
                e,
                ctx,
            ));
            lemma_embeds(
                statement_text(s, ctx),
                "DELETE FROM "@ + object_name_text(table_name, ctx) + " WHERE "@,
                expr_text(e, ctx),
                Seq::empty(),
            );
        },
        Statement::Update { table_name, assignments, selection, limit } => {
            let e = selection.unwrap();
            assert(optional_expr_text(" WHERE "@, selection, ctx) == " WHERE "@ + expr_text(
                e,
                ctx,
            ));
            lemma_embeds(
                statement_text(s, ctx),
                "UPDATE "@ + object_name_text(table_name, ctx) + flag_text(
                    assignments@.len() > 0,
                    " SET "@ + separated(assignment_texts(assignments@, ctx), ", "@),
                ) + " WHERE "@,
                expr_text(e, ctx),
                optional_expr_text(" LIMIT "@, limit, ctx),
            );
        },
        _ => {},
    }
}

/// A text made of two holds each of them as one piece.
pub proof fn lemma_embeds_halves(a: Seq<char>, b: Seq<char>)
    ensures
        embeds(a + b, a),
        embeds(a + b, b),
{
    lemma_embeds(a + b, Seq::empty(), a, b);
    lemma_embeds(a + b, a, b, Seq::empty());
}

/// A text made of six holds the fifth and the sixth as one piece each.
pub proof fn lemma_embeds_in_six(
    a: Seq<char>,
    b: Seq<char>,
    c: Seq<char>,
    d: Seq<char>,
    e: Seq<char>,
    f: Seq<char>,
)
    ensures
        embeds(a + b + c + d + e + f, e),
        embeds(a + b + c + d + e + f, f),
{
    lemma_embeds(a + b + c + d + e + f, a + b + c + d, e, f);
    lemma_embeds(a + b + c + d + e + f, a + b + c + d + e, f, Seq::empty());
}

/// A text made of seven holds the second as one piece.
pub proof fn lemma_embeds_in_seven(
    a: Seq<char>,
    b: Seq<char>,
    c: Seq<char>,
    d: Seq<char>,
    e: Seq<char>,
    f: Seq<char>,
    g: Seq<char>,
)
    ensures
        embeds(a + b + c + d + e + f + g, b),
{
    lemma_embeds(a + b + c + d + e + f + g, a, b, c + d + e + f + g);
}

/// The text of a `SELECT` holds the text of the expression of its `WHERE`.
#[verifier::rlimit(50)]
proof fn lemma_select_where(sel: Select, ctx: Context)
    requires
        sel.selection is Some,
    ensures
        embeds(select_text(sel, ctx), expr_text(sel.selection.unwrap(), ctx)),
{
    let whole = select_text(sel, ctx);
    let tail = select_tail_text(sel, ctx);
    let e = sel.selection.unwrap();
    let clause = optional_expr_text(" WHERE "@, sel.selection, ctx);
    assert(whole == select_head_text(sel, ctx) + tail);
    lemma_embeds_halves(select_head_text(sel, ctx), tail);
    lemma_embeds_in_seven(
        concatenated(lateral_view_texts(sel.lateral_views@, ctx)),
        clause,
        expr_clause_text(" GROUP BY "@, sel.group_by, ctx),
        expr_clause_text(" CLUSTER BY "@, sel.cluster_by, ctx),
        expr_clause_text(" DISTRIBUTE BY "@, sel.distribute_by, ctx),
        expr_clause_text(" SORT BY "@, sel.sort_by, ctx),
        optional_expr_text(" HAVING "@, sel.having, ctx),
    );
    lemma_embeds_trans(whole, tail, clause);
    assert(clause == " WHERE "@ + expr_text(e, ctx));
    lemma_embeds_halves(" WHERE "@, expr_text(e, ctx));
    lemma_embeds_trans(whole, clause, expr_text(e, ctx));
}

/// The text of a `SELECT` holds the list of its projection and the clause
/// of its tables.
proof fn lemma_select_head(sel: Select, ctx: Context)
    ensures
        embeds(
            select_text(sel, ctx),
            separated(select_item_texts(sel.projection@, ctx), ", "@),
        ),
        embeds(select_text(sel, ctx), from_clause_text(sel.from, ctx)),
{
    let whole = select_text(sel, ctx);
    let head = select_head_text(sel, ctx);
    assert(whole == head + select_tail_text(sel, ctx));
    lemma_embeds_halves(head, select_tail_text(sel, ctx));
    lemma_embeds_in_six(
        "SELECT"@,
        flag_text(sel.distinct, " DISTINCT"@),
        optional_top_text(sel.top, ctx),
        " "@,
        separated(select_item_texts(sel.projection@, ctx), ", "@),
        from_clause_text(sel.from, ctx),
    );
    lemma_embeds_trans(whole, head, separated(select_item_texts(sel.projection@, ctx), ", "@));
    lemma_embeds_trans(whole, head, from_clause_text(sel.from, ctx));
}

/// The text of a `SELECT` holds the text of the expression of each item of
/// its projection.
#[verifier::rlimit(50)]
proof fn lemma_select_projection(sel: Select, i: usize, ctx: Context)
    requires
        select_step(sel, Step::Projection(i)) is Some,
    ensures
        embeds(
            select_text(sel, ctx),
            place_text(select_step(sel, Step::Projection(i)).unwrap(), ctx),
        ),
{
    let whole = select_text(sel, ctx);
    let items = select_item_texts(sel.projection@, ctx);
    let list = separated(items, ", "@);
    lemma_select_head(sel, ctx);
    lemma_separated_embeds(items, ", "@, i as int);
    assert(items[i as int] == select_item_text(sel.projection@[i as int], ctx));
    lemma_embeds_trans(whole, list, items[i as int]);
    match sel.projection@[i as int] {
        SelectItem::UnnamedExpr(e) => {
            assert(items[i as int] == expr_text(e, ctx));
        },
        SelectItem::ExprWithAlias { expr, alias } => {
            assert(items[i as int] == expr_text(expr, ctx) + " AS "@ + ident_text(alias, ctx));
            lemma_embeds(
                items[i as int],
                Seq::empty(),
                expr_text(expr, ctx),
                " AS "@ + ident_text(alias, ctx),
            );
            lemma_embeds_trans(whole, items[i as int], expr_text(expr, ctx));
        },
        _ => {},
    }
}

/// The text of a `SELECT` holds the text of each subquery that is a table
/// of its `FROM`.
#[verifier::rlimit(50)]
proof fn lemma_select_from(sel: Select, i: usize, ctx: Context)
    requires
        select_step(sel, Step::From(i)) is Some,
    ensures
        embeds(select_text(sel, ctx), place_text(select_step(sel, Step::From(i)).unwrap(), ctx)),
{
    let whole = select_text(sel, ctx);
    let tables = table_with_joins_texts(sel.from@, ctx);
    let list = separated(tables, ", "@);
    let clause = from_clause_text(sel.from, ctx);
    lemma_select_head(sel, ctx);
    assert(clause == " FROM "@ + list);
    lemma_embeds_halves(" FROM "@, list);
    lemma_embeds_trans(whole, clause, list);
    lemma_separated_embeds(tables, ", "@, i as int);
    let table = sel.from@[i as int];
    assert(tables[i as int] == table_with_joins_text(table, ctx));
    lemma_embeds_trans(whole, list, tables[i as int]);
    let factor = table_factor_text(table.relation, ctx);
    assert(tables[i as int] == factor + concatenated(join_texts(table.joins@, ctx)));
    lemma_embeds_halves(factor, concatenated(join_texts(table.joins@, ctx)));
    lemma_embeds_trans(whole, tables[i as int], factor);
    match table.relation {
        TableFactor::Derived { lateral, subquery, alias } => {
            assert(factor == flag_text(lateral, "LATERAL "@) + "("@ + query_text(*subquery, ctx)
                + ")"@ + optional_alias_text(alias, ctx));
            lemma_embeds(
                factor,
                flag_text(lateral, "LATERAL "@) + "("@,
                query_text(*subquery, ctx),
                ")"@ + optional_alias_text(alias, ctx),
            );
            lemma_embeds_trans(whole, factor, query_text(*subquery, ctx));
        },
        _ => {},
    }
}

/// The text of a `SELECT` holds, under the same context, the text of what a
/// step leads to.
pub proof fn lemma_select_step(sel: Select, step: Step, ctx: Context)
    requires
        select_step(sel, step) is Some,
    ensures
        embeds(select_text(sel, ctx), place_text(select_step(sel, step).unwrap(), ctx)),
{
    match step {
        Step::Where => lemma_select_where(sel, ctx),
        Step::Projection(i) => lemma_select_projection(sel, i, ctx),
        Step::From(i) => lemma_select_from(sel, i, ctx),
        _ => {},
    }
}

/// The text of a query holds, under the same context, the text of what a
/// step leads to.
#[verifier::rlimit(50)]
pub proof fn lemma_query_step(q: Query, step: Step, ctx: Context)
    requires
        query_step(q, step) is Some,
    ensures
        embeds(query_text(q, ctx), place_text(query_step(q, step).unwrap(), ctx)),
{
    match q.body {
        SetExpr::Select(sel) => {
            let body = select_text(*sel, ctx);
            assert(set_expr_text(q.body, ctx) == body);
            lemma_embeds(
                query_text(q, ctx),
                optional_with_text(q.with, ctx),
                body,
                order_by_clause_text(" ORDER BY "@, q.order_by, ctx) + optional_expr_text(
                    " LIMIT "@,
                    q.limit,
                    ctx,
                ) + optional_offset_text(q.offset, ctx) + optional_fetch_text(q.fetch, ctx),
            );
            lemma_select_step(*sel, step, ctx);
            lemma_embeds_trans(
                query_text(q, ctx),
                body,
                place_text(select_step(*sel, step).unwrap(), ctx),
            );
        },
        _ => {},
    }
}

/// The text of an expression holds, under the same context, the text of
/// what a step leads to.
#[verifier::rlimit(50)]
pub proof fn lemma_expr_step(e: Expr, step: Step, ctx: Context)
    requires
        expr_step(e, step) is Some,
    ensures
        embeds(expr_text(e, ctx), place_text(expr_step(e, step).unwrap(), ctx)),
{
    let whole = expr_text(e, ctx);
    match e {
        Expr::Subquery(q) => {
            lemma_embeds(whole, "("@, query_text(*q, ctx), ")"@);
        },
        Expr::Exists(q) => {
            lemma_embeds(whole, "EXISTS ("@, query_text(*q, ctx), ")"@);
        },
        Expr::InSubquery { expr, subquery, negated } => {
            match step {
                Step::Operand => {
                    lemma_embeds(
                        whole,
                        Seq::empty(),
                        expr_text(*expr, ctx),
                        " "@ + flag_text(negated, "NOT "@) + "IN ("@ + query_text(*subquery, ctx)
                            + ")"@,
                    );
                },
                _ => {
                    lemma_embeds(
                        whole,
                        expr_text(*expr, ctx) + " "@ + flag_text(negated, "NOT "@) + "IN ("@,
                        query_text(*subquery, ctx),
                        ")"@,
                    );
                },
            }
        },
        Expr::InList { expr, list, negated } => {
            lemma_embeds(
                whole,
                Seq::empty(),
                expr_text(*expr, ctx),
                " "@ + flag_text(negated, "NOT "@) + "IN ("@ + separated(
                    expr_texts(list@, ctx),
                    ", "@,
                ) + ")"@,
            );
        },
        Expr::Between { expr, negated, low, high } => {
            lemma_embeds(
                whole,
                Seq::empty(),
                expr_text(*expr, ctx),
                " "@ + flag_text(negated, "NOT "@) + "BETWEEN "@ + expr_text(*low, ctx) + " AND "@
                    + expr_text(*high, ctx),
            );
        },
        Expr::IsNull(inner) => {
            lemma_embeds(whole, Seq::empty(), expr_text(*inner, ctx), " IS NULL"@);
        },
        Expr::IsNotNull(inner) => {
            lemma_embeds(whole, Seq::empty(), expr_text(*inner, ctx), " IS NOT NULL"@);
        },
        Expr::UnaryOp { op, expr } => {
            if op == UnaryOperator::PGPostfixFactorial {
                lemma_embeds(whole, Seq::empty(), expr_text(*expr, ctx), unary_operator_text(op));
            } else {
                lemma_embeds(
                    whole,
                    unary_operator_text(op) + " "@,
                    expr_text(*expr, ctx),
                    Seq::empty(),
                );
            }
        },
        Expr::Nested(inner) => {
            lemma_embeds(whole, "("@, expr_text(*inner, ctx), ")"@);
        },
        Expr::BinaryOp { left, op, right } => {
            match step {
                Step::Left => {
                    lemma_embeds(
                        whole,
                        Seq::empty(),
                        expr_text(*left, ctx),
                        " "@ + binary_operator_text(op) + " "@ + expr_text(*right, ctx),
                    );
                },
                _ => {
                    lemma_embeds(
                        whole,
                        expr_text(*left, ctx) + " "@ + binary_operator_text(op) + " "@,
                        expr_text(*right, ctx),
                        Seq::empty(),
                    );
                },
            }
        },
        _ => {},
    }
}

/// The text of a place holds, under the same context, the text of what a
/// step leads to.
pub proof fn lemma_step(p: Place, step: Step, ctx: Context)
    requires
        step_into(p, step) is Some,
    ensures
        embeds(place_text(p, ctx), place_text(step_into(p, step).unwrap(), ctx)),
{
    match p {
        Place::InStatement(s) => lemma_statement_step(s, step, ctx),
        Place::InQuery(q) => lemma_query_step(q, step, ctx),
        Place::InExpr(e) => lemma_expr_step(e, step, ctx),
    }
}

/// The text of a place holds, under the same context, the text of whatever
/// a path leads to, however long the path.
pub proof fn law_text_reaches(p: Place, path: Seq<Step>, ctx: Context)
    requires
        follow(p, path) is Some,
    ensures
        embeds(place_text(p, ctx), place_text(follow(p, path).unwrap(), ctx)),
    decreases path.len(),
{
    if path.len() == 0 {
        lemma_embeds_self(place_text(p, ctx));
    } else {
        let next = step_into(p, path[0]).unwrap();
        lemma_step(p, path[0], ctx);
        law_text_reaches(next, path.skip(1), ctx);
        lemma_embeds_trans(
            place_text(p, ctx),
            place_text(next, ctx),
            place_text(follow(p, path).unwrap(), ctx),
        );
    }
}

/// A render context reaches an identifier at any depth: where a path leads
/// from a statement, a query or an expression to an identifier, through
/// subqueries in `WHERE`, `IN`, `EXISTS`, `FROM` and projections and through
/// the operations between them, the text
/// of the whole holds the very text that the identifier has on its own
/// under the same context, with the context's entry in its place where
/// there is one.
pub proof fn law_context_reaches_identifier(p: Place, path: Seq<Step>, id: Ident, ctx: Context)
    requires
        follow(p, path) == Some(Place::InExpr(Expr::Identifier(id))),
    ensures
        embeds(place_text(p, ctx), ident_text(id, ctx)),
        ctx.contains_key(id.value@) ==> embeds(
            place_text(p, ctx),
            quoted(id.quote_style, ctx[id.value@]),
        ),
        !ctx.contains_key(id.value@) ==> embeds(
            place_text(p, ctx),
            quoted(id.quote_style, id.value@),
        ),
{
    law_text_reaches(p, path, ctx);
    assert(expr_text(Expr::Identifier(id), ctx) == ident_text(id, ctx));
}

} // verus!
