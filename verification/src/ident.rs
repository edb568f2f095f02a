//! Identifiers and dotted names, the leaves at which a render context takes
//! effect.

use vstd::prelude::*;
use vstd::string::StringExecFns;
use crate::context::Context;
use crate::context::RenderContext;
use crate::text::appended;
use crate::text::lemma_separated_none;
use crate::text::lemma_separated_step;
use crate::text::put;
use crate::text::put_char;
use crate::text::separated;

verus! {

broadcast use crate::text::group_sink;

/// An identifier: its text and the quote character it was written with.
#[derive(Debug, Clone, PartialEq, Eq, Hash)]
pub struct Ident {
    /// The text without quotes.
    pub value: String,
    /// The opening quote character, one of `"`, `'`, `` ` `` and `[`, or
    /// nothing for an unquoted identifier.
    pub quote_style: Option<char>,
}

/// A name of one or more parts, written with dots between them.
#[derive(Debug, Clone, PartialEq, Eq, Hash)]
pub struct ObjectName(pub Vec<Ident>);

/// The quote markers an identifier may carry.
pub open spec fn valid_ident_quote(quote: Option<char>) -> bool {
    match quote {
        None => true,
        Some(q) => q == '"' || q == '\'' || q == '`' || q == '[',
    }
}

/// The character that closes a quotation opened with `open`: `]` for `[`,
/// and the opening character itself otherwise.
pub open spec fn closing_quote(open: char) -> char {
    if open == '[' {
        ']'
    } else {
        open
    }
}

/// `body` as it stands under the quote marker `quote`.
pub open spec fn quoted(quote: Option<char>, body: Seq<char>) -> Seq<char> {
    match quote {
        None => body,
        Some(q) => seq![q] + body + seq![closing_quote(q)],
    }
}

/// The text that stands for `value` under `ctx`: its replacement where `ctx`
/// has one, and `value` itself otherwise.
pub open spec fn substituted(value: Seq<char>, ctx: Context) -> Seq<char> {
    if ctx.contains_key(value) {
        ctx[value]
    } else {
        value
    }
}

/// The SQL text of an identifier.
pub open spec fn ident_text(id: Ident, ctx: Context) -> Seq<char> {
    quoted(id.quote_style, substituted(id.value@, ctx))
}

/// The SQL texts of the identifiers of `s`, in order.
pub open spec fn ident_texts(s: Seq<Ident>, ctx: Context) -> Seq<Seq<char>> {
    Seq::new(s.len(), |i: int| ident_text(s[i], ctx))
}

/// Every identifier of `s` carries a valid quote marker.
pub open spec fn idents_wf(s: Seq<Ident>) -> bool {
    forall|i: int| 0 <= i < s.len() ==> (#[trigger] s[i]).well_formed()
}

/// The SQL text of a dotted name.
pub open spec fn object_name_text(name: ObjectName, ctx: Context) -> Seq<char> {
    separated(ident_texts(name.0@, ctx), "."@)
}

/// The SQL texts of the names of `s`, in order.
pub open spec fn object_name_texts(s: Seq<ObjectName>, ctx: Context) -> Seq<Seq<char>> {
    Seq::new(s.len(), |i: int| object_name_text(s[i], ctx))
}

/// Every name of `s` is well formed.
pub open spec fn object_names_wf(s: Seq<ObjectName>) -> bool {
    forall|i: int| 0 <= i < s.len() ==> (#[trigger] s[i]).well_formed()
}

impl Ident {
    /// The quote marker is one of the four that an identifier may carry.
    pub open spec fn well_formed(&self) -> bool {
        valid_ident_quote(self.quote_style)
    }

    /// An unquoted identifier.
    pub fn new(value: &str) -> (id: Ident)
        ensures
            id.value@ == value@,
            id.quote_style is None,
            id.well_formed(),
    {
        Ident { value: String::from_str(value), quote_style: None }
    }

    /// An identifier quoted with `quote`.
    pub fn with_quote(quote: char, value: &str) -> (id: Ident)
        requires
            valid_ident_quote(Some(quote)),
        ensures
            id.value@ == value@,
            id.quote_style == Some(quote),
            id.well_formed(),
    {
        Ident { value: String::from_str(value), quote_style: Some(quote) }
    }

    /// Whether the quote marker is one that an identifier may carry.
    pub fn is_well_formed(&self) -> (r: bool)
        ensures
            r == self.well_formed(),
    {
        match self.quote_style {
            None => true,
            Some(q) => q == '"' || q == '\'' || q == '`' || q == '[',
        }
    }
}

impl ObjectName {
    /// Every part carries a valid quote marker.
    pub open spec fn well_formed(&self) -> bool {
        idents_wf(self.0@)
    }
}

/// The closing quote character for a word opened with `ch`.
pub fn matching_end_quote(ch: char) -> (r: char)
    requires
        ch == '"' || ch == '[' || ch == '`',
    ensures
        r == closing_quote(ch),
{
    if ch == '[' {
        ']'
    } else {
        ch
    }
}

/// Appends an identifier: its text, or the replacement that `ctx` holds for
/// it, between the quote characters that its marker asks for.
pub fn write_ident(id: &Ident, f: &mut String, ctx: &RenderContext)
    requires
        id.well_formed(),
    ensures
        final(f)@ == appended(old(f)@, ident_text(*id, ctx@)),
{
    let body: &str = match ctx.get(id.value.as_str()) {
        Some(replacement) => replacement.as_str(),
        None => id.value.as_str(),
    };
    match id.quote_style {
        None => {
            put(f, body);
        },
        Some(q) => {
            put_char(f, q);
            put(f, body);
            if q == '[' {
                put_char(f, ']');
            } else {
                put_char(f, q);
            }
        },
    }
}

/// Appends the identifiers of `list` with `sep` between them.
pub fn write_idents(list: &Vec<Ident>, sep: &str, f: &mut String, ctx: &RenderContext)
    requires
        idents_wf(list@),
    ensures
        final(f)@ == appended(old(f)@, separated(ident_texts(list@, ctx@), sep@)),
{
    let ghost parts = ident_texts(list@, ctx@);
    proof {
        lemma_separated_none(parts, sep@);
    }
    let mut i: usize = 0;
    while i < list.len()
        invariant
            0 <= i <= list.len(),
            idents_wf(list@),
            parts == ident_texts(list@, ctx@),
            f@ == appended(old(f)@, separated(parts.take(i as int), sep@)),
        decreases list.len() - i,
    {
        if i > 0 {
            put(f, sep);
        }
        proof {
            lemma_separated_step(parts, sep@, i as int);
        }
        write_ident(&list[i], f, ctx);
        i = i + 1;
    }
    proof {
        lemma_separated_none(parts, sep@);
    }
}

/// Appends a dotted name.
pub fn write_object_name(name: &ObjectName, f: &mut String, ctx: &RenderContext)
    requires
        name.well_formed(),
    ensures
        final(f)@ == appended(old(f)@, object_name_text(*name, ctx@)),
{
    write_idents(&name.0, ".", f, ctx);
}

/// Appends the names of `list` with `sep` between them.
pub fn write_object_names(list: &Vec<ObjectName>, sep: &str, f: &mut String, ctx: &RenderContext)
    requires
        object_names_wf(list@),
    ensures
        final(f)@ == appended(old(f)@, separated(object_name_texts(list@, ctx@), sep@)),
{
    let ghost parts = object_name_texts(list@, ctx@);
    proof {
        lemma_separated_none(parts, sep@);
    }
    let mut i: usize = 0;
    while i < list.len()
        invariant
            0 <= i <= list.len(),
            object_names_wf(list@),
            parts == object_name_texts(list@, ctx@),
            f@ == appended(old(f)@, separated(parts.take(i as int), sep@)),
        decreases list.len() - i,
    {
        if i > 0 {
            put(f, sep);
        }
        proof {
            lemma_separated_step(parts, sep@, i as int);
        }
        write_object_name(&list[i], f, ctx);
        i = i + 1;
    }
    proof {
        lemma_separated_none(parts, sep@);
    }
}

/// Whether every identifier of `list` is well formed.
pub fn check_idents(list: &Vec<Ident>) -> (r: bool)
    ensures
        r == idents_wf(list@),
{
    let mut i: usize = 0;
    while i < list.len()
        invariant
            0 <= i <= list.len(),
            forall|j: int| 0 <= j < i ==> (#[trigger] list@[j]).well_formed(),
        decreases list.len() - i,
    {
        if !list[i].is_well_formed() {
            return false;
        }
        i = i + 1;
    }
    true
}

impl ObjectName {
    /// Whether every part carries a valid quote marker.
    pub fn is_well_formed(&self) -> (r: bool)
        ensures
            r == self.well_formed(),
    {
        check_idents(&self.0)
    }
}

/// Whether every name of `list` is well formed.
pub fn check_object_names(list: &Vec<ObjectName>) -> (r: bool)
    ensures
        r == object_names_wf(list@),
{
    let mut i: usize = 0;
    while i < list.len()
        invariant
            0 <= i <= list.len(),
            forall|j: int| 0 <= j < i ==> (#[trigger] list@[j]).well_formed(),
        decreases list.len() - i,
    {
        if !list[i].is_well_formed() {
            return false;
        }
        i = i + 1;
    }
    true
}
} // verus!
