//! Raw tokens, as they stand in dialect-specific column options, and their
//! text.

use vstd::prelude::*;
use crate::ident::matching_end_quote;
use crate::ident::quoted;
use crate::text::appended;
use crate::text::lemma_separated_none;
use crate::text::lemma_separated_step;
use crate::text::put;
use crate::text::put_char;
use crate::text::separated;

verus! {

broadcast use crate::text::group_sink;

/// A keyword or an optionally quoted identifier.
#[derive(Debug, Clone, PartialEq, Eq, Hash)]
pub struct Word {
    /// The text of the token, without the enclosing quotes.
    pub value: String,
    /// The opening quote character, one of `"`, `[` and `` ` ``, or nothing
    /// for an unquoted word.
    pub quote_style: Option<char>,
}

/// White space and comments.
#[derive(Debug, Clone, PartialEq, Eq, Hash)]
pub enum Whitespace {
    Space,
    Newline,
    Tab,
    SingleLineComment { comment: String, prefix: String },
    MultiLineComment(String),
}

/// An SQL token.
#[derive(Debug, Clone, PartialEq, Eq, Hash)]
pub enum Token {
    /// An end-of-file marker, not a real token.
    EOF,
    /// A keyword or an optionally quoted SQL identifier.
    Word(Word),
    /// An unsigned numeric literal, and whether it is marked long.
    Number(String, bool),
    /// A character that could not be tokenized.
    Char(char),
    /// Single quoted string: i.e: 'string'.
    SingleQuotedString(String),
    /// "National" string literal: i.e: N'string'.
    NationalStringLiteral(String),
    /// Hexadecimal string literal: i.e.: X'deadbeef'.
    HexStringLiteral(String),
    /// Comma.
    Comma,
    /// Whitespace (space, tab, etc).
    Whitespace(Whitespace),
    /// Double equals sign `==`.
    DoubleEq,
    /// Equality operator `=`.
    Eq,
    /// Not Equals operator `<>` (or `!=` in some dialects).
    Neq,
    /// Less Than operator `<`.
    Lt,
    /// Greater Than operator `>`.
    Gt,
    /// Less Than Or Equals operator `<=`.
    LtEq,
    /// Greater Than Or Equals operator `>=`.
    GtEq,
    /// Spaceship operator `<=>`.
    Spaceship,
    /// Plus operator `+`.
    Plus,
    /// Minus operator `-`.
    Minus,
    /// Multiplication operator `*`.
    Mult,
    /// Division operator `/`.
    Div,
    /// Modulo Operator `%`.
    Mod,
    /// String concatenation `||`.
    StringConcat,
    /// Left parenthesis `(`.
    LParen,
    /// Right parenthesis `)`.
    RParen,
    /// Period (used for compound identifiers or projections into nested types).
    Period,
    /// Colon `:`.
    Colon,
    /// DoubleColon `::` (used for casting in postgresql).
    DoubleColon,
    /// SemiColon `;` used as separator for COPY and payload.
    SemiColon,
    /// Backslash `\` used in terminating the COPY payload with `\.`.
    Backslash,
    /// Left bracket `[`.
    LBracket,
    /// Right bracket `]`.
    RBracket,
    /// Ampersand `&`.
    Ampersand,
    /// Pipe `|`.
    Pipe,
    /// Caret `^`.
    Caret,
    /// Left brace `{`.
    LBrace,
    /// Right brace `}`.
    RBrace,
    /// Right Arrow `=>`.
    RArrow,
    /// Sharp `#` used for PostgreSQL Bitwise XOR operator.
    Sharp,
    /// Tilde `~` used for PostgreSQL Bitwise NOT operator.
    Tilde,
    /// `<<`, a bitwise shift left operator in PostgreSQL.
    ShiftLeft,
    /// `>>`, a bitwise shift right operator in PostgreSQL.
    ShiftRight,
    /// Exclamation Mark `!` used for PostgreSQL factorial operator.
    ExclamationMark,
    /// Double Exclamation Mark `!!` used for PostgreSQL prefix factorial operator.
    DoubleExclamationMark,
    /// AtSign `@` used for PostgreSQL abs operator.
    AtSign,
    /// `|/`, a square root math operator in PostgreSQL.
    PGSquareRoot,
    /// `||/`, a cube root math operator in PostgreSQL.
    PGCubeRoot,
    /// The mark of a statement parameter, as written. It has no text of its
    /// own.
    ParameterMark(String),
}

/// The quote markers a word may carry.
pub open spec fn valid_word_quote(quote: Option<char>) -> bool {
    match quote {
        None => true,
        Some(q) => q == '"' || q == '[' || q == '`',
    }
}

impl Word {
    /// The quote marker is one of the three that a word may carry.
    pub open spec fn well_formed(&self) -> bool {
        valid_word_quote(self.quote_style)
    }
}

/// The text of a word: its value between the quote characters that its
/// marker asks for.
pub open spec fn word_text(w: Word) -> Seq<char> {
    quoted(w.quote_style, w.value@)
}

/// The text of white space or of a comment.
pub open spec fn whitespace_text(ws: Whitespace) -> Seq<char> {
    match ws {
        Whitespace::Space => " "@,
        Whitespace::Newline => "\n"@,
        Whitespace::Tab => "\t"@,
        Whitespace::SingleLineComment { comment, prefix } => prefix@ + comment@,
        Whitespace::MultiLineComment(s) => "/*"@ + s@ + "*/"@,
    }
}

/// Whether a token is well formed: a word's quote marker is valid.
pub open spec fn token_wf(t: Token) -> bool {
    match t {
        Token::Word(w) => w.well_formed(),
        _ => true,
    }
}

/// Every token of `s` is well formed.
pub open spec fn tokens_wf(s: Seq<Token>) -> bool {
    forall|i: int| 0 <= i < s.len() ==> token_wf(#[trigger] s[i])
}

/// The text of a token that is a fixed symbol, and nothing for the others.
pub open spec fn symbol_text(t: Token) -> Seq<char> {
    match t {
        Token::EOF => "EOF"@,
        Token::Comma => ","@,
        Token::DoubleEq => "=="@,
        Token::Spaceship => "<=>"@,
        Token::Eq => "="@,
        Token::Neq => "<>"@,
        Token::Lt => "<"@,
        Token::Gt => ">"@,
        Token::LtEq => "<="@,
        Token::GtEq => ">="@,
        Token::Plus => "+"@,
        Token::Minus => "-"@,
        Token::Mult => "*"@,
        Token::Div => "/"@,
        Token::StringConcat => "||"@,
        Token::Mod => "%"@,
        Token::LParen => "("@,
        Token::RParen => ")"@,
        Token::Period => "."@,
        Token::Colon => ":"@,
        Token::DoubleColon => "::"@,
        Token::SemiColon => ";"@,
        Token::Backslash => "\\"@,
        Token::LBracket => "["@,
        Token::RBracket => "]"@,
        Token::Ampersand => "&"@,
        Token::Caret => "^"@,
        Token::Pipe => "|"@,
        Token::LBrace => "{"@,
        Token::RBrace => "}"@,
        Token::RArrow => "=>"@,
        Token::Sharp => "#"@,
        Token::ExclamationMark => "!"@,
        Token::DoubleExclamationMark => "!!"@,
        Token::Tilde => "~"@,
        Token::AtSign => "@"@,
        Token::ShiftLeft => "<<"@,
        Token::ShiftRight => ">>"@,
        Token::PGSquareRoot => "|/"@,
        Token::PGCubeRoot => "||/"@,
        _ => Seq::empty(),
    }
}

/// The text of a token. A parameter mark has none.
pub open spec fn token_text(t: Token) -> Seq<char> {
    match t {
        Token::Word(w) => word_text(w),
        Token::Number(digits, long) => digits@ + if long {
            "L"@
        } else {
            Seq::empty()
        },
        Token::Char(c) => seq![c],
        Token::SingleQuotedString(s) => "'"@ + s@ + "'"@,
        Token::NationalStringLiteral(s) => "N'"@ + s@ + "'"@,
        Token::HexStringLiteral(s) => "X'"@ + s@ + "'"@,
        Token::Whitespace(ws) => whitespace_text(ws),
        Token::ParameterMark(_) => Seq::empty(),
        _ => symbol_text(t),
    }
}

/// The texts of the tokens of `s`, in order.
pub open spec fn token_texts(s: Seq<Token>) -> Seq<Seq<char>> {
    Seq::new(s.len(), |i: int| token_text(s[i]))
}

/// Appends a word between its quote characters.
pub fn write_word(w: &Word, f: &mut String)
    requires
        w.well_formed(),
    ensures
        final(f)@ == appended(old(f)@, word_text(*w)),
{
    match w.quote_style {
        Some(q) => {
            put_char(f, q);
            put(f, w.value.as_str());
            put_char(f, matching_end_quote(q));
        },
        None => put(f, w.value.as_str()),
    }
}

/// Appends white space or a comment.
pub fn write_whitespace(ws: &Whitespace, f: &mut String)
    ensures
        final(f)@ == appended(old(f)@, whitespace_text(*ws)),
{
    match ws {
        Whitespace::Space => put(f, " "),
        Whitespace::Newline => put(f, "\n"),
        Whitespace::Tab => put(f, "\t"),
        Whitespace::SingleLineComment { comment, prefix } => {
            put(f, prefix.as_str());
            put(f, comment.as_str());
        },
        Whitespace::MultiLineComment(s) => {
            put(f, "/*");
            put(f, s.as_str());
            put(f, "*/");
        },
    }
}

/// The text of a token that is a fixed symbol, and the empty text for the
/// others.
pub fn token_symbol(t: &Token) -> (r: &'static str)
    ensures
        r@ == symbol_text(*t),
{
    let r = match t {
        Token::EOF => "EOF",
        Token::Comma => ",",
        Token::DoubleEq => "==",
        Token::Spaceship => "<=>",
        Token::Eq => "=",
        Token::Neq => "<>",
        Token::Lt => "<",
        Token::Gt => ">",
        Token::LtEq => "<=",
        Token::GtEq => ">=",
        Token::Plus => "+",
        Token::Minus => "-",
        Token::Mult => "*",
        Token::Div => "/",
        Token::StringConcat => "||",
        Token::Mod => "%",
        Token::LParen => "(",
        Token::RParen => ")",
        Token::Period => ".",
        Token::Colon => ":",
        Token::DoubleColon => "::",
        Token::SemiColon => ";",
        Token::Backslash => "\\",
        Token::LBracket => "[",
        Token::RBracket => "]",
        Token::Ampersand => "&",
        Token::Caret => "^",
        Token::Pipe => "|",
        Token::LBrace => "{",
        Token::RBrace => "}",
        Token::RArrow => "=>",
        Token::Sharp => "#",
        Token::ExclamationMark => "!",
        Token::DoubleExclamationMark => "!!",
        Token::Tilde => "~",
        Token::AtSign => "@",
        Token::ShiftLeft => "<<",
        Token::ShiftRight => ">>",
        Token::PGSquareRoot => "|/",
        Token::PGCubeRoot => "||/",
        _ => "",
    };
    proof {
        reveal_strlit("");
        assert(""@ =~= Seq::<char>::empty());
    }
    r
}

/// Appends the text of a token.
pub fn write_token(t: &Token, f: &mut String)
    requires
        token_wf(*t),
    ensures
        final(f)@ == appended(old(f)@, token_text(*t)),
{
    match t {
        Token::Word(w) => write_word(w, f),
        Token::Number(digits, long) => {
            put(f, digits.as_str());
            if *long {
                put(f, "L");
            }
        },
        Token::Char(c) => put_char(f, *c),
        Token::SingleQuotedString(s) => {
            put(f, "'");
            put(f, s.as_str());
            put(f, "'");
        },
        Token::NationalStringLiteral(s) => {
            put(f, "N'");
            put(f, s.as_str());
            put(f, "'");
        },
        Token::HexStringLiteral(s) => {
            put(f, "X'");
            put(f, s.as_str());
            put(f, "'");
        },
        Token::Whitespace(ws) => write_whitespace(ws, f),
        Token::ParameterMark(_) => {},
        _ => put(f, token_symbol(t)),
    }
}

/// Appends the tokens of `list` with `sep` between them.
pub fn write_tokens(list: &Vec<Token>, sep: &str, f: &mut String)
    requires
        tokens_wf(list@),
    ensures
        final(f)@ == appended(old(f)@, separated(token_texts(list@), sep@)),
{
    let ghost parts = token_texts(list@);
    proof {
        lemma_separated_none(parts, sep@);
    }
    let mut i: usize = 0;
    while i < list.len()
        invariant
            0 <= i <= list.len(),
            tokens_wf(list@),
            parts == token_texts(list@),
            f@ == appended(old(f)@, separated(parts.take(i as int), sep@)),
        decreases list.len() - i,
    {
        if i > 0 {
            put(f, sep);
        }
        proof {
            lemma_separated_step(parts, sep@, i as int);
        }
        write_token(&list[i], f);
        i = i + 1;
    }
    proof {
        lemma_separated_none(parts, sep@);
    }
}

impl Word {
    /// Whether the quote marker is one that a word may carry.
    pub fn is_well_formed(&self) -> (r: bool)
        ensures
            r == self.well_formed(),
    {
        match self.quote_style {
            None => true,
            Some(q) => q == '"' || q == '[' || q == '`',
        }
    }
}

/// Whether a token is well formed.
pub fn check_token(t: &Token) -> (r: bool)
    ensures
        r == token_wf(*t),
{
    match t {
        Token::Word(w) => w.is_well_formed(),
        _ => true,
    }
}

/// Whether every token of `list` is well formed.
pub fn check_tokens(list: &Vec<Token>) -> (r: bool)
    ensures
        r == tokens_wf(list@),
{
    let mut i: usize = 0;
    while i < list.len()
        invariant
            0 <= i <= list.len(),
            forall|j: int| 0 <= j < i ==> token_wf((#[trigger] list@[j])),
        decreases list.len() - i,
    {
        if !check_token(&list[i]) {
            return false;
        }
        i = i + 1;
    }
    true
}
} // verus!
