//! What holds of the render pass for every input: how identifiers are
//! quoted, how lists are separated, how an empty table is written, how
//! escaped text is delimited, and how far a render context reaches.

use vstd::prelude::*;
use crate::context::Context;
use crate::data_type::data_type_text;
use crate::expr::Expr;
use crate::expr::expr_text;
use crate::expr::optional_expr_text;
use crate::ident::Ident;
use crate::ident::ident_text;
use crate::ident::object_name_text;
use crate::ident::quoted;
use crate::ident::substituted;
use crate::query::Query;
use crate::query::SelectItem;
use crate::query::SetExpr;
use crate::query::expr_clause_text;
use crate::query::from_clause_text;
use crate::query::lateral_view_texts;
use crate::query::optional_fetch_text;
use crate::query::optional_offset_text;
use crate::query::optional_top_text;
use crate::query::optional_with_text;
use crate::query::order_by_clause_text;
use crate::query::query_text;
use crate::query::select_head_text;
use crate::query::select_item_text;
use crate::query::select_item_texts;
use crate::query::select_tail_text;
use crate::query::select_text;
use crate::query::set_expr_text;
use crate::statement::Statement;
use crate::statement::create_table_columns_text;
use crate::statement::create_table_head_text;
use crate::statement::create_table_tail_text;
use crate::statement::create_table_text;
use crate::statement::statement_text;
use crate::text::concatenated;
use crate::text::escaped;
use crate::text::escaped_char;
use crate::text::flag_text;
use crate::text::separated;
use crate::text::total_len;

verus! {

/// An identifier's text opens and closes as its quote marker asks: `[`
/// closes with `]`, every other marker closes with itself, and without a
/// marker the text is the identifier's body and nothing else.
pub proof fn law_quoting(id: Ident, ctx: Context)
    ensures
        id.quote_style is None ==> ident_text(id, ctx) == substituted(id.value@, ctx),
        id.quote_style == Some('[') ==> ident_text(id, ctx) == seq!['['] + substituted(
            id.value@,
            ctx,
        ) + seq![']'],
        id.quote_style matches Some(q) ==> (q != '[' ==> ident_text(id, ctx) == seq![q]
            + substituted(id.value@, ctx) + seq![q]),
        id.quote_style matches Some(q) ==> ident_text(id, ctx).first() == q,
        id.quote_style == Some('[') ==> ident_text(id, ctx).last() == ']',
        id.quote_style matches Some(q) ==> (q != '[' ==> ident_text(id, ctx).last() == q),
        id.quote_style matches Some(q) ==> ident_text(id, ctx).len() == substituted(
            id.value@,
            ctx,
        ).len() + 2,
{
}

/// A joined list of `n > 0` items holds every item and `n - 1` separators:
/// its length is the items' lengths and `n - 1` times the separator's.
pub proof fn law_separator_count(parts: Seq<Seq<char>>, sep: Seq<char>)
    requires
        parts.len() > 0,
    ensures
        separated(parts, sep).len() == total_len(parts) + (parts.len() - 1) * sep.len(),
    decreases parts.len(),
{
    reveal(separated);
    if parts.len() == 1 {
        assert(parts.drop_last().len() == 0);
        assert(total_len(parts.drop_last()) == 0);
        assert(total_len(parts) == parts[0].len());
    } else {
        law_separator_count(parts.drop_last(), sep);
        assert((parts.len() - 1) * sep.len() == (parts.len() - 2) * sep.len() + sep.len())
            by (nonlinear_arith);
    }
}

/// A joined list of `n > 0` items begins with its first item and ends with
/// its last: no separator leads or trails.
pub proof fn law_separator_inside(parts: Seq<Seq<char>>, sep: Seq<char>)
    requires
        parts.len() > 0,
    ensures
        parts[0].is_prefix_of(separated(parts, sep)),
        parts.last().is_suffix_of(separated(parts, sep)),
    decreases parts.len(),
{
    reveal(separated);
    if parts.len() > 1 {
        law_separator_inside(parts.drop_last(), sep);
        let front = separated(parts.drop_last(), sep);
        let whole = front + sep + parts.last();
        assert(parts.drop_last()[0] == parts[0]);
        assert(whole.subrange(0, parts[0].len() as int) =~= front.subrange(
            0,
            parts[0].len() as int,
        ));
        assert(whole.subrange(whole.len() - parts.last().len(), whole.len() as int)
            =~= parts.last());
    } else {
        assert(parts[0].subrange(0, parts[0].len() as int) =~= parts[0]);
    }
}

/// The list of a joined list's items after the first, each with the
/// separator before it.
pub open spec fn led_by(parts: Seq<Seq<char>>, sep: Seq<char>) -> Seq<Seq<char>> {
    Seq::new((parts.len() - 1) as nat, |i: int| sep + parts[i + 1])
}

/// A joined list of `n > 0` items is its first item followed by the other
/// `n - 1` items, each led by one separator.
pub proof fn law_separator_between(parts: Seq<Seq<char>>, sep: Seq<char>)
    requires
        parts.len() > 0,
    ensures
        separated(parts, sep) == parts[0] + concatenated(led_by(parts, sep)),
    decreases parts.len(),
{
    reveal(separated);
    if parts.len() == 1 {
        assert(led_by(parts, sep).len() == 0);
        assert(parts[0] + Seq::<char>::empty() =~= parts[0]);
    } else {
        let front = parts.drop_last();
        law_separator_between(front, sep);
        let led = led_by(parts, sep);
        assert(led.drop_last() =~= led_by(front, sep));
        assert(led.last() == sep + parts.last());
        if led.len() == 1 {
            assert(concatenated(led_by(front, sep)) == Seq::<char>::empty());
            assert(parts[0] + Seq::<char>::empty() + sep + parts.last() =~= parts[0] + (sep
                + parts.last()));
        } else {
            assert(parts[0] + concatenated(led.drop_last()) + sep + parts.last() =~= parts[0] + (
            concatenated(led.drop_last()) + Seq::<char>::empty() + (sep + parts.last())));
        }
    }
}

/// A `CREATE TABLE` without columns, constraints and query is written with
/// ` ()` straight after the table's name, before any further clause.
pub proof fn law_empty_table_parentheses(s: Statement, ctx: Context)
    requires
        s matches Statement::CreateTable { columns, constraints, query, .. } && columns@.len() == 0
            && constraints@.len() == 0 && query is None,
    ensures
        s matches Statement::CreateTable { or_replace, external, if_not_exists, name, .. }
            && statement_text(s, ctx) == "CREATE "@ + flag_text(or_replace, "OR REPLACE "@)
            + flag_text(external, "EXTERNAL "@) + "TABLE "@ + flag_text(
            if_not_exists,
            "IF NOT EXISTS "@,
        ) + object_name_text(name, ctx) + " ()"@ + create_table_tail_text(s, ctx),
{
    assert(create_table_columns_text(s, ctx) == " ()"@);
    assert(statement_text(s, ctx) == create_table_text(s, ctx));
    if let Statement::CreateTable { or_replace, external, if_not_exists, name, .. } = s {
        assert(create_table_text(s, ctx) == create_table_head_text(
            or_replace,
            external,
            if_not_exists,
            name,
            ctx,
        ) + create_table_columns_text(s, ctx) + create_table_tail_text(s, ctx));
    }
}

/// The expression that a query selects, where the query is nothing but
/// `SELECT` and that one expression.
pub open spec fn sole_projection(q: Query) -> Option<Expr> {
    match q.body {
        SetExpr::Select(sel) => if q.with is None && q.order_by@.len() == 0 && q.limit is None
            && q.offset is None && q.fetch is None && !sel.distinct && sel.top is None
            && sel.projection@.len() == 1 && sel.from@.len() == 0 && sel.lateral_views@.len() == 0
            && sel.selection is None && sel.group_by@.len() == 0 && sel.cluster_by@.len() == 0
            && sel.distribute_by@.len() == 0 && sel.sort_by@.len() == 0 && sel.having is None {
            match sel.projection@[0] {
                SelectItem::UnnamedExpr(e) => Some(e),
                _ => None,
            }
        } else {
            None
        },
        _ => None,
    }
}

/// A query that is nothing but `SELECT` and one expression is written as
/// `SELECT`, a space and that expression under the same context.
#[verifier::rlimit(50)]
pub proof fn lemma_sole_projection_text(q: Query, ctx: Context)
    requires
        sole_projection(q) is Some,
    ensures
        query_text(q, ctx) == "SELECT"@ + " "@ + expr_text(sole_projection(q).unwrap(), ctx),
{
    reveal(separated);
    let e = sole_projection(q).unwrap();
    match q.body {
        SetExpr::Select(sel) => {
            let items = select_item_texts(sel.projection@, ctx);
            assert(items.len() == 1);
            assert(items[0] == select_item_text(sel.projection@[0], ctx));
            assert(select_item_text(sel.projection@[0], ctx) == expr_text(e, ctx));
            assert(separated(items, ", "@) == expr_text(e, ctx));
            assert(from_clause_text(sel.from, ctx) == Seq::<char>::empty());
            assert(optional_top_text(sel.top, ctx) == Seq::<char>::empty());
            assert(select_head_text(*sel, ctx) =~= "SELECT"@ + " "@ + expr_text(e, ctx));
            assert(lateral_view_texts(sel.lateral_views@, ctx).len() == 0);
            assert(concatenated(lateral_view_texts(sel.lateral_views@, ctx))
                == Seq::<char>::empty());
            assert(optional_expr_text(" WHERE "@, sel.selection, ctx) == Seq::<char>::empty());
            assert(optional_expr_text(" HAVING "@, sel.having, ctx) == Seq::<char>::empty());
            assert(expr_clause_text(" GROUP BY "@, sel.group_by, ctx) == Seq::<char>::empty());
            assert(expr_clause_text(" CLUSTER BY "@, sel.cluster_by, ctx) == Seq::<char>::empty());
            assert(expr_clause_text(" DISTRIBUTE BY "@, sel.distribute_by, ctx) == Seq::<
                char,
            >::empty());
            assert(expr_clause_text(" SORT BY "@, sel.sort_by, ctx) == Seq::<char>::empty());
            assert(select_tail_text(*sel, ctx) =~= Seq::<char>::empty());
            assert(select_text(*sel, ctx) =~= "SELECT"@ + " "@ + expr_text(e, ctx));
            assert(set_expr_text(q.body, ctx) == select_text(*sel, ctx));
            assert(optional_with_text(q.with, ctx) == Seq::<char>::empty());
            assert(order_by_clause_text(" ORDER BY "@, q.order_by, ctx) == Seq::<char>::empty());
            assert(optional_expr_text(" LIMIT "@, q.limit, ctx) == Seq::<char>::empty());
            assert(optional_offset_text(q.offset, ctx) == Seq::<char>::empty());
            assert(optional_fetch_text(q.fetch, ctx) == Seq::<char>::empty());
            assert(query_text(q, ctx) =~= "SELECT"@ + " "@ + expr_text(e, ctx));
        },
        _ => {},
    }
}

/// Whether `inner` stands in `outer` below `depth` subqueries, each of
/// which is nothing but `SELECT` and one expression.
pub open spec fn nested_in(outer: Expr, depth: nat, inner: Expr) -> bool
    decreases depth,
{
    if depth == 0 {
        outer == inner
    } else {
        match outer {
            Expr::Subquery(q) => match sole_projection(*q) {
                Some(e) => nested_in(e, (depth - 1) as nat, inner),
                None => false,
            },
            _ => false,
        }
    }
}

/// `text` written `n` times.
pub open spec fn repeated(text: Seq<char>, n: nat) -> Seq<char>
    decreases n,
{
    if n == 0 {
        Seq::empty()
    } else {
        text + repeated(text, (n - 1) as nat)
    }
}

/// A repeated text can as well be extended at its end.
pub proof fn lemma_repeated_end(text: Seq<char>, n: nat)
    ensures
        repeated(text, n) + text == text + repeated(text, n),
    decreases n,
{
    if n == 0 {
        assert(Seq::<char>::empty() + text =~= text + Seq::<char>::empty());
    } else {
        lemma_repeated_end(text, (n - 1) as nat);
        assert(text + repeated(text, (n - 1) as nat) + text =~= text + (repeated(
            text,
            (n - 1) as nat,
        ) + text));
    }
}

/// A render context reaches an identifier however deep it stands in nested
/// subqueries: the text of the whole is the subqueries' frame around the
/// identifier's own text under that context, and where the context holds an
/// entry for the identifier, the entry's text stands in its place.
#[verifier::rlimit(50)]
pub proof fn law_context_reach(outer: Expr, depth: nat, id: Ident, ctx: Context)
    requires
        nested_in(outer, depth, Expr::Identifier(id)),
    ensures
        expr_text(outer, ctx) == repeated("("@ + "SELECT"@ + " "@, depth) + ident_text(id, ctx)
            + repeated(")"@, depth),
        ctx.contains_key(id.value@) ==> ident_text(id, ctx) == quoted(
            id.quote_style,
            ctx[id.value@],
        ),
        !ctx.contains_key(id.value@) ==> ident_text(id, ctx) == quoted(id.quote_style, id.value@),
    decreases depth,
{
    if depth == 0 {
        assert(expr_text(outer, ctx) == ident_text(id, ctx));
        assert(Seq::<char>::empty() + ident_text(id, ctx) + Seq::<char>::empty() =~= ident_text(
            id,
            ctx,
        ));
    } else {
        match outer {
            Expr::Subquery(q) => {
                let e = sole_projection(*q).unwrap();
                let d = (depth - 1) as nat;
                let open = "("@ + "SELECT"@ + " "@;
                lemma_sole_projection_text(*q, ctx);
                law_context_reach(e, d, id, ctx);
                lemma_repeated_end(")"@, d);
                assert(expr_text(outer, ctx) == "("@ + query_text(*q, ctx) + ")"@);
                assert("("@ + ("SELECT"@ + " "@ + (repeated(open, d) + ident_text(id, ctx)
                    + repeated(")"@, d))) + ")"@ =~= open + repeated(open, d) + ident_text(id, ctx)
                    + (repeated(")"@, d) + ")"@));
            },
            _ => {},
        }
    }
}

/// Where a literal that begins at `from` ends: the position of the first
/// single quote at or after `from` that is not the first of two, or the
/// length of `text` where there is none.
pub open spec fn literal_end(text: Seq<char>, from: int) -> int
    decreases text.len() - from,
{
    if from < 0 || from >= text.len() {
        text.len() as int
    } else if text[from] != '\'' {
        literal_end(text, from + 1)
    } else if from + 1 < text.len() && text[from + 1] == '\'' {
        literal_end(text, from + 2)
    } else {
        from
    }
}

/// Escaping goes character by character from the front as well.
pub proof fn lemma_escaped_front(s: Seq<char>)
    requires
        s.len() > 0,
    ensures
        escaped(s) == escaped_char(s[0]) + escaped(s.skip(1)),
    decreases s.len(),
{
    reveal(escaped);
    if s.len() == 1 {
        assert(s.drop_last() =~= Seq::<char>::empty());
        assert(s.skip(1) =~= Seq::<char>::empty());
        assert(Seq::<char>::empty() + escaped_char(s[0]) =~= escaped_char(s[0]) + Seq::<
            char,
        >::empty());
    } else {
        lemma_escaped_front(s.drop_last());
        assert(s.drop_last().skip(1) =~= s.skip(1).drop_last());
        assert(s.skip(1).last() == s.last());
        assert(escaped_char(s[0]) + escaped(s.skip(1).drop_last()) + escaped_char(s.last())
            =~= escaped_char(s[0]) + (escaped(s.skip(1).drop_last()) + escaped_char(s.last())));
    }
}

/// A text escaped and set between single quotes is delimited as it should
/// be: the literal that begins after the opening quote ends at the closing
/// quote, whatever quotes the text held, provided that no quote follows the
/// closing one directly.
pub proof fn law_escaped_literal_closes(s: Seq<char>, before: Seq<char>, after: Seq<char>)
    requires
        after.len() == 0 || after[0] != '\'',
    ensures
        literal_end(before + escaped(s) + "'"@ + after, before.len() as int) == before.len()
            + escaped(s).len(),
    decreases s.len(),
{
    reveal_strlit("'");
    reveal_strlit("''");
    let text = before + escaped(s) + "'"@ + after;
    let from = before.len() as int;
    if s.len() == 0 {
        reveal(escaped);
        assert(escaped(s).len() == 0);
        assert(text[from] == '\'');
        assert(from + 1 < text.len() ==> text[from + 1] == after[0]);
    } else {
        lemma_escaped_front(s);
        let head = escaped_char(s[0]);
        let rest = s.skip(1);
        law_escaped_literal_closes(rest, before + head, after);
        assert(before + head + escaped(rest) + "'"@ + after =~= text);
        if s[0] == '\'' {
            assert(head.len() == 2);
            assert(text[from] == head[0]);
            assert(text[from + 1] == head[1]);
        } else {
            assert(head.len() == 1);
            assert(text[from] == s[0]);
        }
    }
}
/// The literal of a typed string closes at its last character: the quote
/// that ends the text of the expression is the one at which the literal
/// that begins after the opening quote ends, whatever quotes the value
/// holds.
pub proof fn law_typed_string_delimited(e: Expr, ctx: Context, after: Seq<char>)
    requires
        e is TypedString,
        after.len() == 0 || after[0] != '\'',
    ensures
        e matches Expr::TypedString { data_type, value } && literal_end(
            expr_text(e, ctx) + after,
            (data_type_text(data_type, ctx).len() + 2) as int,
        ) == expr_text(e, ctx).len() - 1,
{
    reveal_strlit(" '");
    reveal_strlit("'");
    if let Expr::TypedString { data_type, value } = e {
        let before = data_type_text(data_type, ctx) + " '"@;
        law_escaped_literal_closes(value@, before, after);
        assert(expr_text(e, ctx) == before + escaped(value@) + "'"@);
    }
}

} // verus!
