//! Text primitives shared by every renderer: the output sink's basic writes,
//! the separator combinator, decimal numerals and single-quote escaping.

use vstd::prelude::*;
use vstd::string::StringExecFns;

verus! {

/// `String::push` of the standard library: the character is appended to the
/// end of the string and nothing else changes.
pub assume_specification[ std::string::String::push ](s: &mut std::string::String, ch: char)
    ensures
        final(s)@ == old(s)@.push(ch),
;

/// The sink `base` after `text` has been written to it: `base` followed by
/// `text`.
pub open spec fn appended(base: Seq<char>, text: Seq<char>) -> Seq<char> {
    base + text
}

/// Writing `x` and then `y` is writing `x + y`.
pub broadcast proof fn lemma_appended_twice(base: Seq<char>, x: Seq<char>, y: Seq<char>)
    ensures
        #[trigger] appended(appended(base, x), y) == appended(base, x + y),
{
    assert((base + x) + y =~= base + (x + y));
}

/// Writing nothing leaves the sink as it is.
pub broadcast proof fn lemma_appended_nothing(base: Seq<char>)
    ensures
        #[trigger] appended(base, Seq::<char>::empty()) == base,
{
    assert(base + Seq::<char>::empty() =~= base);
}

/// The empty text is a right identity of concatenation.
pub broadcast proof fn lemma_concat_empty_right(a: Seq<char>)
    ensures
        #[trigger] (a + Seq::<char>::empty()) == a,
{
    assert(a + Seq::<char>::empty() =~= a);
}

/// The empty text is a left identity of concatenation.
pub broadcast proof fn lemma_concat_empty_left(a: Seq<char>)
    ensures
        #[trigger] (Seq::<char>::empty() + a) == a,
{
    assert(Seq::<char>::empty() + a =~= a);
}

/// The laws by which a text written piece by piece is seen to be the text of
/// the whole.
pub broadcast group group_sink {
    lemma_appended_twice,
    lemma_appended_nothing,
    lemma_concat_empty_right,
    lemma_concat_empty_left,
}

/// Appends `text` to `f`.
pub fn put(f: &mut String, text: &str)
    ensures
        final(f)@ == appended(old(f)@, text@),
{
    f.append(text);
}

/// Appends the character `c` to `f`.
pub fn put_char(f: &mut String, c: char)
    ensures
        final(f)@ == appended(old(f)@, seq![c]),
{
    f.push(c);
    assert(f@ =~= old(f)@ + seq![c]);
}

/// The empty string literal is the empty text.
pub proof fn lemma_empty_literal()
    ensures
        ""@ == Seq::<char>::empty(),
{
    reveal_strlit("");
    assert(""@ =~= Seq::<char>::empty());
}

/// `text` where `on` holds, and nothing otherwise.
pub open spec fn flag_text(on: bool, text: Seq<char>) -> Seq<char> {
    if on {
        text
    } else {
        Seq::empty()
    }
}

/// Appends `text` where `on` holds.
pub fn write_flag(f: &mut String, on: bool, text: &str)
    ensures
        final(f)@ == appended(old(f)@, flag_text(on, text@)),
{
    broadcast use group_sink;

    if on {
        put(f, text);
    }
}

/// The items of `parts` joined by `sep`: nothing for no item, and otherwise
/// every item in order with `sep` between each two neighbours.
#[verifier::opaque]
pub open spec fn separated(parts: Seq<Seq<char>>, sep: Seq<char>) -> Seq<char>
    decreases parts.len(),
{
    if parts.len() == 0 {
        Seq::empty()
    } else if parts.len() == 1 {
        parts[0]
    } else {
        separated(parts.drop_last(), sep) + sep + parts.last()
    }
}

/// The items of `parts` one after the other.
pub open spec fn concatenated(parts: Seq<Seq<char>>) -> Seq<char> {
    separated(parts, Seq::empty())
}

/// The lengths of all items of `parts` added up.
pub open spec fn total_len(parts: Seq<Seq<char>>) -> nat
    decreases parts.len(),
{
    if parts.len() == 0 {
        0
    } else {
        total_len(parts.drop_last()) + parts.last().len()
    }
}

/// A joined list grows item by item: no item gives the empty text, the
/// first item stands alone, and every later one follows a separator.
pub proof fn lemma_separated_step(parts: Seq<Seq<char>>, sep: Seq<char>, k: int)
    requires
        0 <= k < parts.len(),
    ensures
        separated(parts.take(0), sep) == Seq::<char>::empty(),
        separated(parts.take(k + 1), sep) == if k == 0 {
            parts[k]
        } else {
            separated(parts.take(k), sep) + sep + parts[k]
        },
{
    reveal(separated);
    assert(parts.take(k + 1).drop_last() =~= parts.take(k));
}

/// The joined list of no items is the empty text.
pub proof fn lemma_separated_none(parts: Seq<Seq<char>>, sep: Seq<char>)
    ensures
        separated(parts.take(0), sep) == Seq::<char>::empty(),
        separated(parts.take(parts.len() as int), sep) == separated(parts, sep),
{
    reveal(separated);
    assert(parts.take(parts.len() as int) =~= parts);
}

/// The decimal digit character of `d`, for `d` below ten.
pub open spec fn digit_char(d: nat) -> char {
    if d == 0 {
        '0'
    } else if d == 1 {
        '1'
    } else if d == 2 {
        '2'
    } else if d == 3 {
        '3'
    } else if d == 4 {
        '4'
    } else if d == 5 {
        '5'
    } else if d == 6 {
        '6'
    } else if d == 7 {
        '7'
    } else if d == 8 {
        '8'
    } else {
        '9'
    }
}

/// The decimal numeral of `n`, without sign or leading zeros.
#[verifier::opaque]
pub open spec fn decimal(n: nat) -> Seq<char>
    decreases n,
{
    if n < 10 {
        seq![digit_char(n)]
    } else {
        decimal(n / 10) + seq![digit_char(n % 10)]
    }
}

fn digit_of(d: u64) -> (c: char)
    requires
        d < 10,
    ensures
        c == digit_char(d as nat),
{
    if d == 0 {
        '0'
    } else if d == 1 {
        '1'
    } else if d == 2 {
        '2'
    } else if d == 3 {
        '3'
    } else if d == 4 {
        '4'
    } else if d == 5 {
        '5'
    } else if d == 6 {
        '6'
    } else if d == 7 {
        '7'
    } else if d == 8 {
        '8'
    } else {
        '9'
    }
}

/// Appends the decimal numeral of `n` to `f`.
pub fn write_decimal(f: &mut String, n: u64)
    ensures
        final(f)@ == appended(old(f)@, decimal(n as nat)),
    decreases n,
{
    broadcast use group_sink;

    proof {
        reveal(decimal);
    }
    if n >= 10 {
        write_decimal(f, n / 10);
    }
    put_char(f, digit_of(n % 10));
}

/// What stands for the character `c` between single quotes: two quotes for
/// a quote, and `c` itself otherwise.
pub open spec fn escaped_char(c: char) -> Seq<char> {
    if c == '\'' {
        "''"@
    } else {
        seq![c]
    }
}

/// `s` with every single quote doubled, so that the text can stand between
/// single quotes in a statement.
#[verifier::opaque]
pub open spec fn escaped(s: Seq<char>) -> Seq<char>
    decreases s.len(),
{
    if s.len() == 0 {
        Seq::empty()
    } else {
        escaped(s.drop_last()) + escaped_char(s.last())
    }
}

/// Appends `s` to `f` with every single quote doubled.
pub fn write_escaped(f: &mut String, s: &str)
    ensures
        final(f)@ == appended(old(f)@, escaped(s@)),
{
    broadcast use group_sink;
    broadcast use vstd::string::group_string_axioms;

    proof {
        reveal(escaped);
    }
    for c in it: s.chars()
        invariant
            it.seq() == s@,
            f@ == appended(old(f)@, escaped(s@.take(it.index()))),
    {
        proof {
            reveal(escaped);
            assert(s@.take(it.index() + 1).drop_last() =~= s@.take(it.index()));
        }
        if c == '\'' {
            put(f, "''");
        } else {
            put_char(f, c);
        }
    }
    proof {
        assert(s@.take(s@.len() as int) =~= s@);
    }
}

/// The text of `s` with every single quote doubled.
pub fn escape_single_quote_string(s: &str) -> (r: String)
    ensures
        r@ == escaped(s@),
{
    broadcast use group_sink;

    let mut r = String::new();
    write_escaped(&mut r, s);
    r
}
} // verus!
