//! SQL data types and their text.

use vstd::prelude::*;
use crate::context::Context;
use crate::context::RenderContext;
use crate::ident::ObjectName;
use crate::ident::object_name_text;
use crate::ident::write_object_name;
use crate::text::appended;
use crate::text::decimal;
use crate::text::lemma_separated_none;
use crate::text::lemma_separated_step;
use crate::text::put;
use crate::text::separated;
use crate::text::write_decimal;

verus! {

broadcast use crate::text::group_sink;

/// An SQL data type.
#[derive(Debug, PartialEq, Eq, Hash)]
pub enum DataType {
    /// Fixed-length character type, e.g. `CHAR(10)`.
    Char(Option<u64>),
    /// Variable-length character type, e.g. `CHARACTER VARYING(10)`.
    Varchar(Option<u64>),
    /// Uuid type.
    Uuid,
    /// Large character object, e.g. `CLOB(1000)`.
    Clob(u64),
    /// Fixed-length binary type, e.g. `BINARY(10)`.
    Binary(u64),
    /// Variable-length binary type, e.g. `VARBINARY(10)`.
    Varbinary(u64),
    /// Large binary object, e.g. `BLOB(1000)`.
    Blob(u64),
    /// Decimal type with optional precision and scale, e.g. `NUMERIC(10,2)`.
    /// A scale is only ever present together with a precision.
    Decimal(Option<u64>, Option<u64>),
    /// Floating point with optional precision, e.g. `FLOAT(8)`.
    Float(Option<u64>),
    /// Small integer.
    SmallInt,
    /// Integer.
    Int,
    /// Big integer.
    BigInt,
    /// Floating point, e.g. `REAL`.
    Real,
    /// Double, e.g. `DOUBLE`.
    Double,
    /// Boolean.
    Boolean,
    /// Date.
    Date,
    /// Time.
    Time,
    /// Timestamp.
    Timestamp,
    /// Interval.
    Interval,
    /// Regclass, used in PostgreSQL serial.
    Regclass,
    /// Text.
    Text,
    /// String.
    String,
    /// Bytea.
    Bytea,
    /// A type given by name.
    Custom(ObjectName),
    /// Arrays of another type.
    Array(Box<DataType>),
}

/// The name `sql_type` followed by the length in parentheses, where there is
/// one.
pub open spec fn optional_length_text(sql_type: Seq<char>, len: Option<u64>) -> Seq<char> {
    match len {
        Some(n) => sql_type + "("@ + decimal(n as nat) + ")"@,
        None => sql_type,
    }
}

/// The name `sql_type` followed by the mandatory length in parentheses.
pub open spec fn sized_type_text(sql_type: Seq<char>, size: u64) -> Seq<char> {
    sql_type + "("@ + decimal(size as nat) + ")"@
}

/// The text of a decimal type: `NUMERIC`, then precision and scale as far as
/// they are given.
pub open spec fn decimal_type_text(precision: Option<u64>, scale: Option<u64>) -> Seq<char> {
    match scale {
        Some(s) => "NUMERIC("@ + decimal(precision.unwrap() as nat) + ","@ + decimal(s as nat)
            + ")"@,
        None => optional_length_text("NUMERIC"@, precision),
    }
}

/// Whether a data type meets the structural invariants that rendering relies
/// on: a decimal scale comes with a precision, and a custom type's name is
/// well formed.
pub open spec fn data_type_wf(t: DataType) -> bool
    decreases t,
{
    match t {
        DataType::Decimal(precision, scale) => scale is Some ==> precision is Some,
        DataType::Custom(name) => name.well_formed(),
        DataType::Array(inner) => data_type_wf(*inner),
        _ => true,
    }
}

/// The SQL text of a data type.
pub open spec fn data_type_text(t: DataType, ctx: Context) -> Seq<char>
    decreases t,
{
    match t {
        DataType::Char(size) => optional_length_text("CHAR"@, size),
        DataType::Varchar(size) => optional_length_text("CHARACTER VARYING"@, size),
        DataType::Uuid => "UUID"@,
        DataType::Clob(size) => sized_type_text("CLOB"@, size),
        DataType::Binary(size) => sized_type_text("BINARY"@, size),
        DataType::Varbinary(size) => sized_type_text("VARBINARY"@, size),
        DataType::Blob(size) => sized_type_text("BLOB"@, size),
        DataType::Decimal(precision, scale) => decimal_type_text(precision, scale),
        DataType::Float(size) => optional_length_text("FLOAT"@, size),
        DataType::SmallInt => "SMALLINT"@,
        DataType::Int => "INT"@,
        DataType::BigInt => "BIGINT"@,
        DataType::Real => "REAL"@,
        DataType::Double => "DOUBLE"@,
        DataType::Boolean => "BOOLEAN"@,
        DataType::Date => "DATE"@,
        DataType::Time => "TIME"@,
        DataType::Timestamp => "TIMESTAMP"@,
        DataType::Interval => "INTERVAL"@,
        DataType::Regclass => "REGCLASS"@,
        DataType::Text => "TEXT"@,
        DataType::String => "STRING"@,
        DataType::Bytea => "BYTEA"@,
        DataType::Array(inner) => data_type_text(*inner, ctx) + "[]"@,
        DataType::Custom(name) => object_name_text(name, ctx),
    }
}

/// The SQL texts of the data types of `s`, in order.
pub open spec fn data_type_texts(s: Seq<DataType>, ctx: Context) -> Seq<Seq<char>> {
    Seq::new(s.len(), |i: int| data_type_text(s[i], ctx))
}

/// Every data type of `s` is well formed.
pub open spec fn data_types_wf(s: Seq<DataType>) -> bool {
    forall|i: int| 0 <= i < s.len() ==> data_type_wf(#[trigger] s[i])
}

/// Appends a type name and, where a length is given, the length in
/// parentheses.
pub fn format_type_with_optional_length(f: &mut String, sql_type: &'static str, len: &Option<u64>)
    ensures
        final(f)@ == appended(old(f)@, optional_length_text(sql_type@, *len)),
{
    put(f, sql_type);
    if let Some(n) = len {
        put(f, "(");
        write_decimal(f, *n);
        put(f, ")");
    }
}

fn write_sized_type(f: &mut String, sql_type: &'static str, size: u64)
    ensures
        final(f)@ == appended(old(f)@, sized_type_text(sql_type@, size)),
{
    put(f, sql_type);
    put(f, "(");
    write_decimal(f, size);
    put(f, ")");
}

fn write_decimal_type(f: &mut String, precision: &Option<u64>, scale: &Option<u64>)
    requires
        scale is Some ==> precision is Some,
    ensures
        final(f)@ == appended(old(f)@, decimal_type_text(*precision, *scale)),
{
    match (precision, scale) {
        (Some(p), Some(s)) => {
            put(f, "NUMERIC(");
            write_decimal(f, *p);
            put(f, ",");
            write_decimal(f, *s);
            put(f, ")");
        },
        _ => {
            format_type_with_optional_length(f, "NUMERIC", precision);
        },
    }
}

/// Appends the SQL text of a data type.
pub fn write_data_type(t: &DataType, f: &mut String, ctx: &RenderContext)
    requires
        data_type_wf(*t),
    ensures
        final(f)@ == appended(old(f)@, data_type_text(*t, ctx@)),
    decreases t,
{
    match t {
        DataType::Char(size) => format_type_with_optional_length(f, "CHAR", size),
        DataType::Varchar(size) => format_type_with_optional_length(f, "CHARACTER VARYING", size),
        DataType::Uuid => put(f, "UUID"),
        DataType::Clob(size) => write_sized_type(f, "CLOB", *size),
        DataType::Binary(size) => write_sized_type(f, "BINARY", *size),
        DataType::Varbinary(size) => write_sized_type(f, "VARBINARY", *size),
        DataType::Blob(size) => write_sized_type(f, "BLOB", *size),
        DataType::Decimal(precision, scale) => write_decimal_type(f, precision, scale),
        DataType::Float(size) => format_type_with_optional_length(f, "FLOAT", size),
        DataType::SmallInt => put(f, "SMALLINT"),
        DataType::Int => put(f, "INT"),
        DataType::BigInt => put(f, "BIGINT"),
        DataType::Real => put(f, "REAL"),
        DataType::Double => put(f, "DOUBLE"),
        DataType::Boolean => put(f, "BOOLEAN"),
        DataType::Date => put(f, "DATE"),
        DataType::Time => put(f, "TIME"),
        DataType::Timestamp => put(f, "TIMESTAMP"),
        DataType::Interval => put(f, "INTERVAL"),
        DataType::Regclass => put(f, "REGCLASS"),
        DataType::Text => put(f, "TEXT"),
        DataType::String => put(f, "STRING"),
        DataType::Bytea => put(f, "BYTEA"),
        DataType::Array(inner) => {
            write_data_type(inner, f, ctx);
            put(f, "[]");
        },
        DataType::Custom(name) => write_object_name(name, f, ctx),
    }
}

/// Appends the data types of `list` with `sep` between them.
pub fn write_data_types(list: &Vec<DataType>, sep: &str, f: &mut String, ctx: &RenderContext)
    requires
        data_types_wf(list@),
    ensures
        final(f)@ == appended(old(f)@, separated(data_type_texts(list@, ctx@), sep@)),
{
    let ghost parts = data_type_texts(list@, ctx@);
    proof {
        lemma_separated_none(parts, sep@);
    }
    let mut i: usize = 0;
    while i < list.len()
        invariant
            0 <= i <= list.len(),
            data_types_wf(list@),
            parts == data_type_texts(list@, ctx@),
            f@ == appended(old(f)@, separated(parts.take(i as int), sep@)),
        decreases list.len() - i,
    {
        if i > 0 {
            put(f, sep);
        }
        proof {
            lemma_separated_step(parts, sep@, i as int);
        }
        write_data_type(&list[i], f, ctx);
        i = i + 1;
    }
    proof {
        lemma_separated_none(parts, sep@);
    }
}

/// Whether a data type is well formed.
pub fn check_data_type(t: &DataType) -> (r: bool)
    ensures
        r == data_type_wf(*t),
    decreases t,
{
    match t {
        DataType::Decimal(precision, scale) => scale.is_none() || precision.is_some(),
        DataType::Custom(name) => name.is_well_formed(),
        DataType::Array(inner) => check_data_type(inner),
        _ => true,
    }
}

/// Whether every data type of `list` is well formed.
pub fn check_data_types(list: &Vec<DataType>) -> (r: bool)
    ensures
        r == data_types_wf(list@),
{
    let mut i: usize = 0;
    while i < list.len()
        invariant
            0 <= i <= list.len(),
            forall|j: int| 0 <= j < i ==> data_type_wf((#[trigger] list@[j])),
        decreases list.len() - i,
    {
        if !check_data_type(&list[i]) {
            return false;
        }
        i = i + 1;
    }
    true
}
} // verus!
