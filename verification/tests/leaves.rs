use martlet_proxy::context::RenderContext;
use martlet_proxy::data_type::{format_type_with_optional_length, DataType};
use martlet_proxy::ident::{matching_end_quote, Ident, ObjectName};
use martlet_proxy::rewrite::SQLReWrite;
use martlet_proxy::text::{escape_single_quote_string, write_decimal};
use martlet_proxy::tokenizer::{Token, Whitespace, Word};
use martlet_proxy::value::{DateTimeField, Value};

fn text<T: SQLReWrite>(node: &T) -> String {
    let mut out = String::new();
    node.rewrite(&mut out, &RenderContext::new()).unwrap();
    out
}

fn decimal(n: u64) -> String {
    let mut out = String::new();
    write_decimal(&mut out, n);
    out
}

#[test]
fn bracket_quote_closes_with_a_bracket() {
    assert_eq!(text(&Ident::with_quote('[', "a b")), "[a b]");
    assert_eq!(text(&Ident::with_quote('[', "")), "[]");
}

#[test]
fn other_quotes_close_with_themselves() {
    assert_eq!(text(&Ident::with_quote('"', "a b")), "\"a b\"");
    assert_eq!(text(&Ident::with_quote('`', "a b")), "`a b`");
    assert_eq!(text(&Ident::with_quote('\'', "a b")), "'a b'");
}

#[test]
fn unquoted_identifier_is_verbatim() {
    assert_eq!(text(&Ident::new("plain")), "plain");
    assert_eq!(text(&Ident::new("")), "");
    assert_eq!(text(&Ident::new("has \"quotes\" inside")), "has \"quotes\" inside");
}

#[test]
fn identifier_constructors_keep_what_they_are_given() {
    let plain = Ident::new("a");
    assert_eq!(plain.value, "a");
    assert_eq!(plain.quote_style, None);
    assert!(plain.is_well_formed());
    let quoted = Ident::with_quote('`', "b");
    assert_eq!(quoted.value, "b");
    assert_eq!(quoted.quote_style, Some('`'));
    assert!(quoted.is_well_formed());
    let broken = Ident { value: "c".to_string(), quote_style: Some('(') };
    assert!(!broken.is_well_formed());
}

#[test]
fn closing_quotes_of_words() {
    assert_eq!(matching_end_quote('"'), '"');
    assert_eq!(matching_end_quote('['), ']');
    assert_eq!(matching_end_quote('`'), '`');
}

#[test]
fn dotted_names() {
    assert_eq!(text(&ObjectName(vec![Ident::new("a")])), "a");
    assert_eq!(
        text(&ObjectName(vec![Ident::new("a"), Ident::with_quote('`', "b"), Ident::new("c")])),
        "a.`b`.c"
    );
    assert_eq!(text(&ObjectName(vec![])), "");
}

#[test]
fn decimal_numerals() {
    assert_eq!(decimal(0), "0");
    assert_eq!(decimal(7), "7");
    assert_eq!(decimal(10), "10");
    assert_eq!(decimal(1234567890), "1234567890");
    assert_eq!(decimal(u64::MAX), "18446744073709551615");
    let mut out = String::from("n=");
    write_decimal(&mut out, 42);
    assert_eq!(out, "n=42");
}

#[test]
fn escaping_doubles_every_single_quote() {
    assert_eq!(escape_single_quote_string(""), "");
    assert_eq!(escape_single_quote_string("plain"), "plain");
    assert_eq!(escape_single_quote_string("it's"), "it''s");
    assert_eq!(escape_single_quote_string("'"), "''");
    assert_eq!(escape_single_quote_string("''"), "''''");
    assert_eq!(escape_single_quote_string("a'b'c"), "a''b''c");
    assert_eq!(escape_single_quote_string("\"back\\slash\""), "\"back\\slash\"");
    assert_eq!(escape_single_quote_string("ünï'cødé"), "ünï''cødé");
}

#[test]
fn types_with_optional_length() {
    let mut out = String::new();
    format_type_with_optional_length(&mut out, "CHAR", &Some(3));
    assert_eq!(out, "CHAR(3)");
    let mut bare = String::new();
    format_type_with_optional_length(&mut bare, "CHAR", &None);
    assert_eq!(bare, "CHAR");
}

#[test]
fn every_data_type_has_its_text() {
    let cases: Vec<(DataType, &str)> = vec![
        (DataType::Char(None), "CHAR"),
        (DataType::Char(Some(10)), "CHAR(10)"),
        (DataType::Varchar(None), "CHARACTER VARYING"),
        (DataType::Varchar(Some(255)), "CHARACTER VARYING(255)"),
        (DataType::Uuid, "UUID"),
        (DataType::Clob(100), "CLOB(100)"),
        (DataType::Binary(8), "BINARY(8)"),
        (DataType::Varbinary(16), "VARBINARY(16)"),
        (DataType::Blob(0), "BLOB(0)"),
        (DataType::Decimal(None, None), "NUMERIC"),
        (DataType::Decimal(Some(10), None), "NUMERIC(10)"),
        (DataType::Decimal(Some(10), Some(2)), "NUMERIC(10,2)"),
        (DataType::Float(None), "FLOAT"),
        (DataType::Float(Some(24)), "FLOAT(24)"),
        (DataType::SmallInt, "SMALLINT"),
        (DataType::Int, "INT"),
        (DataType::BigInt, "BIGINT"),
        (DataType::Real, "REAL"),
        (DataType::Double, "DOUBLE"),
        (DataType::Boolean, "BOOLEAN"),
        (DataType::Date, "DATE"),
        (DataType::Time, "TIME"),
        (DataType::Timestamp, "TIMESTAMP"),
        (DataType::Interval, "INTERVAL"),
        (DataType::Regclass, "REGCLASS"),
        (DataType::Text, "TEXT"),
        (DataType::String, "STRING"),
        (DataType::Bytea, "BYTEA"),
        (DataType::Custom(ObjectName(vec![Ident::new("public"), Ident::new("money")])), "public.money"),
        (DataType::Array(Box::new(DataType::Int)), "INT[]"),
        (DataType::Array(Box::new(DataType::Array(Box::new(DataType::Char(Some(1)))))), "CHAR(1)[][]"),
    ];
    for (data_type, expected) in cases {
        assert_eq!(text(&data_type), expected);
    }
}

#[test]
fn values() {
    assert_eq!(text(&Value::Number("1.5e3".to_string(), false)), "1.5e3");
    assert_eq!(text(&Value::Number("12".to_string(), true)), "12L");
    assert_eq!(text(&Value::SingleQuotedString("it's".to_string())), "'it''s'");
    assert_eq!(text(&Value::DoubleQuotedString("a'b".to_string())), "\"a'b\"");
    assert_eq!(text(&Value::NationalStringLiteral("n".to_string())), "N'n'");
    assert_eq!(text(&Value::HexStringLiteral("DEADBEEF".to_string())), "X'DEADBEEF'");
    assert_eq!(text(&Value::Boolean(true)), "true");
    assert_eq!(text(&Value::Boolean(false)), "false");
    assert_eq!(text(&Value::Null), "NULL");
}

#[test]
fn intervals() {
    let seconds = Value::Interval {
        value: "1.5".to_string(),
        leading_field: Some(DateTimeField::Second),
        leading_precision: Some(5),
        last_field: None,
        fractional_seconds_precision: Some(2),
    };
    assert_eq!(text(&seconds), "INTERVAL '1.5' SECOND (5, 2)");
    let full = Value::Interval {
        value: "1'2".to_string(),
        leading_field: Some(DateTimeField::Hour),
        leading_precision: Some(3),
        last_field: Some(DateTimeField::Minute),
        fractional_seconds_precision: Some(4),
    };
    assert_eq!(text(&full), "INTERVAL '1''2' HOUR (3) TO MINUTE (4)");
    let bare = Value::Interval {
        value: "1".to_string(),
        leading_field: None,
        leading_precision: None,
        last_field: None,
        fractional_seconds_precision: None,
    };
    assert_eq!(text(&bare), "INTERVAL '1'");
    let second_without_fraction = Value::Interval {
        value: "1".to_string(),
        leading_field: Some(DateTimeField::Second),
        leading_precision: Some(5),
        last_field: Some(DateTimeField::Second),
        fractional_seconds_precision: None,
    };
    assert_eq!(text(&second_without_fraction), "INTERVAL '1' SECOND (5) TO SECOND");
}

#[test]
fn date_time_fields() {
    assert_eq!(text(&DateTimeField::Year), "YEAR");
    assert_eq!(text(&DateTimeField::Month), "MONTH");
    assert_eq!(text(&DateTimeField::Day), "DAY");
    assert_eq!(text(&DateTimeField::Hour), "HOUR");
    assert_eq!(text(&DateTimeField::Minute), "MINUTE");
    assert_eq!(text(&DateTimeField::Second), "SECOND");
}

#[test]
fn words_and_whitespace() {
    assert_eq!(text(&Word { value: "select".to_string(), quote_style: None }), "select");
    assert_eq!(text(&Word { value: "a b".to_string(), quote_style: Some('"') }), "\"a b\"");
    assert_eq!(text(&Word { value: "a b".to_string(), quote_style: Some('[') }), "[a b]");
    assert_eq!(text(&Word { value: "a b".to_string(), quote_style: Some('`') }), "`a b`");
    assert_eq!(text(&Whitespace::Space), " ");
    assert_eq!(text(&Whitespace::Newline), "\n");
    assert_eq!(text(&Whitespace::Tab), "\t");
    assert_eq!(
        text(&Whitespace::SingleLineComment { comment: " note\n".to_string(), prefix: "--".to_string() }),
        "-- note\n"
    );
    assert_eq!(text(&Whitespace::MultiLineComment(" c ".to_string())), "/* c */");
}

#[test]
fn every_token_has_its_text() {
    let cases: Vec<(Token, &str)> = vec![
        (Token::EOF, "EOF"),
        (Token::Word(Word { value: "w".to_string(), quote_style: Some('`') }), "`w`"),
        (Token::Number("10".to_string(), false), "10"),
        (Token::Number("10".to_string(), true), "10L"),
        (Token::Char('?'), "?"),
        (Token::Char('é'), "é"),
        (Token::SingleQuotedString("it's".to_string()), "'it's'"),
        (Token::NationalStringLiteral("n".to_string()), "N'n'"),
        (Token::HexStringLiteral("ff".to_string()), "X'ff'"),
        (Token::Comma, ","),
        (Token::Whitespace(Whitespace::Tab), "\t"),
        (Token::DoubleEq, "=="),
        (Token::Spaceship, "<=>"),
        (Token::Eq, "="),
        (Token::Neq, "<>"),
        (Token::Lt, "<"),
        (Token::Gt, ">"),
        (Token::LtEq, "<="),
        (Token::GtEq, ">="),
        (Token::Plus, "+"),
        (Token::Minus, "-"),
        (Token::Mult, "*"),
        (Token::Div, "/"),
        (Token::StringConcat, "||"),
        (Token::Mod, "%"),
        (Token::LParen, "("),
        (Token::RParen, ")"),
        (Token::Period, "."),
        (Token::Colon, ":"),
        (Token::DoubleColon, "::"),
        (Token::SemiColon, ";"),
        (Token::Backslash, "\\"),
        (Token::LBracket, "["),
        (Token::RBracket, "]"),
        (Token::Ampersand, "&"),
        (Token::Caret, "^"),
        (Token::Pipe, "|"),
        (Token::LBrace, "{"),
        (Token::RBrace, "}"),
        (Token::RArrow, "=>"),
        (Token::Sharp, "#"),
        (Token::ExclamationMark, "!"),
        (Token::DoubleExclamationMark, "!!"),
        (Token::Tilde, "~"),
        (Token::AtSign, "@"),
        (Token::ShiftLeft, "<<"),
        (Token::ShiftRight, ">>"),
        (Token::PGSquareRoot, "|/"),
        (Token::PGCubeRoot, "||/"),
        (Token::ParameterMark("?".to_string()), ""),
    ];
    for (token, expected) in cases {
        assert_eq!(text(&token), expected);
    }
}
