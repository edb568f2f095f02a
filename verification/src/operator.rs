//! Unary and binary operators and their symbols.

use vstd::prelude::*;

verus! {

broadcast use crate::text::group_sink;

/// Unary operators.
#[derive(Debug, Clone, Copy, PartialEq, Eq, Hash)]
pub enum UnaryOperator {
    Plus,
    Minus,
    Not,
    /// Bitwise not, e.g. `~9` (PostgreSQL-specific).
    PGBitwiseNot,
    /// Square root, e.g. `|/9` (PostgreSQL-specific).
    PGSquareRoot,
    /// Cube root, e.g. `||/27` (PostgreSQL-specific).
    PGCubeRoot,
    /// Factorial, e.g. `9!` (PostgreSQL-specific).
    PGPostfixFactorial,
    /// Factorial, e.g. `!!9` (PostgreSQL-specific).
    PGPrefixFactorial,
    /// Absolute value, e.g. `@ -9` (PostgreSQL-specific).
    PGAbs,
}

/// Binary operators.
#[derive(Debug, Clone, Copy, PartialEq, Eq, Hash)]
pub enum BinaryOperator {
    Plus,
    Minus,
    Multiply,
    Divide,
    Modulus,
    StringConcat,
    Gt,
    Lt,
    GtEq,
    LtEq,
    Spaceship,
    Eq,
    NotEq,
    And,
    Or,
    Like,
    NotLike,
    ILike,
    NotILike,
    BitwiseOr,
    BitwiseAnd,
    BitwiseXor,
    PGBitwiseXor,
    PGBitwiseShiftLeft,
    PGBitwiseShiftRight,
}

/// The symbol of a unary operator.
pub open spec fn unary_operator_text(op: UnaryOperator) -> Seq<char> {
    match op {
        UnaryOperator::Plus => "+"@,
        UnaryOperator::Minus => "-"@,
        UnaryOperator::Not => "NOT"@,
        UnaryOperator::PGBitwiseNot => "~"@,
        UnaryOperator::PGSquareRoot => "|/"@,
        UnaryOperator::PGCubeRoot => "||/"@,
        UnaryOperator::PGPostfixFactorial => "!"@,
        UnaryOperator::PGPrefixFactorial => "!!"@,
        UnaryOperator::PGAbs => "@"@,
    }
}

/// The symbol of a binary operator.
pub open spec fn binary_operator_text(op: BinaryOperator) -> Seq<char> {
    match op {
        BinaryOperator::Plus => "+"@,
        BinaryOperator::Minus => "-"@,
        BinaryOperator::Multiply => "*"@,
        BinaryOperator::Divide => "/"@,
        BinaryOperator::Modulus => "%"@,
        BinaryOperator::StringConcat => "||"@,
        BinaryOperator::Gt => ">"@,
        BinaryOperator::Lt => "<"@,
        BinaryOperator::GtEq => ">="@,
        BinaryOperator::LtEq => "<="@,
        BinaryOperator::Spaceship => "<=>"@,
        BinaryOperator::Eq => "="@,
        BinaryOperator::NotEq => "<>"@,
        BinaryOperator::And => "AND"@,
        BinaryOperator::Or => "OR"@,
        BinaryOperator::Like => "LIKE"@,
        BinaryOperator::NotLike => "NOT LIKE"@,
        BinaryOperator::BitwiseOr => "|"@,
        BinaryOperator::BitwiseAnd => "&"@,
        BinaryOperator::BitwiseXor => "^"@,
        BinaryOperator::PGBitwiseXor => "#"@,
        BinaryOperator::PGBitwiseShiftLeft => "<<"@,
        BinaryOperator::PGBitwiseShiftRight => ">>"@,
        BinaryOperator::ILike => "ILIKE"@,
        BinaryOperator::NotILike => "NOT ILIKE"@,
    }
}

/// The symbol of a unary operator.
pub fn unary_operator_symbol(op: &UnaryOperator) -> (r: &'static str)
    ensures
        r@ == unary_operator_text(*op),
{
    match op {
        UnaryOperator::Plus => "+",
        UnaryOperator::Minus => "-",
        UnaryOperator::Not => "NOT",
        UnaryOperator::PGBitwiseNot => "~",
        UnaryOperator::PGSquareRoot => "|/",
        UnaryOperator::PGCubeRoot => "||/",
        UnaryOperator::PGPostfixFactorial => "!",
        UnaryOperator::PGPrefixFactorial => "!!",
        UnaryOperator::PGAbs => "@",
    }
}

/// The symbol of a binary operator.
pub fn binary_operator_symbol(op: &BinaryOperator) -> (r: &'static str)
    ensures
        r@ == binary_operator_text(*op),
{
    match op {
        BinaryOperator::Plus => "+",
        BinaryOperator::Minus => "-",
        BinaryOperator::Multiply => "*",
        BinaryOperator::Divide => "/",
        BinaryOperator::Modulus => "%",
        BinaryOperator::StringConcat => "||",
        BinaryOperator::Gt => ">",
        BinaryOperator::Lt => "<",
        BinaryOperator::GtEq => ">=",
        BinaryOperator::LtEq => "<=",
        BinaryOperator::Spaceship => "<=>",
        BinaryOperator::Eq => "=",
        BinaryOperator::NotEq => "<>",
        BinaryOperator::And => "AND",
        BinaryOperator::Or => "OR",
        BinaryOperator::Like => "LIKE",
        BinaryOperator::NotLike => "NOT LIKE",
        BinaryOperator::BitwiseOr => "|",
        BinaryOperator::BitwiseAnd => "&",
        BinaryOperator::BitwiseXor => "^",
        BinaryOperator::PGBitwiseXor => "#",
        BinaryOperator::PGBitwiseShiftLeft => "<<",
        BinaryOperator::PGBitwiseShiftRight => ">>",
        BinaryOperator::ILike => "ILIKE",
        BinaryOperator::NotILike => "NOT ILIKE",
    }
}
} // verus!
