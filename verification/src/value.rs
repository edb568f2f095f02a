//! Literal values and their text.

use vstd::prelude::*;
use crate::text::appended;
use crate::text::decimal;
use crate::text::escaped;
use crate::text::put;
use crate::text::write_decimal;
use crate::text::write_escaped;

verus! {

broadcast use crate::text::group_sink;

/// A field of a date or a time.
#[derive(Debug, Clone, Copy, PartialEq, Eq, Hash)]
pub enum DateTimeField {
    Year,
    Month,
    Day,
    Hour,
    Minute,
    Second,
}

/// Primitive SQL values such as number and string.
#[derive(Debug, Clone, PartialEq, Eq, Hash)]
pub enum Value {
    /// Numeric literal, as written, and whether it is marked long.
    Number(String, bool),
    /// 'string value'
    SingleQuotedString(String),
    /// N'string value'
    NationalStringLiteral(String),
    /// X'hex value'
    HexStringLiteral(String),
    /// "string value"
    DoubleQuotedString(String),
    /// Boolean value true or false.
    Boolean(bool),
    /// An interval literal, e.g. `INTERVAL '123:45.67' MINUTE(3) TO SECOND(2)`.
    /// Where the leading field is `SECOND` and both precisions are given,
    /// there is no last field.
    Interval {
        value: String,
        leading_field: Option<DateTimeField>,
        leading_precision: Option<u64>,
        last_field: Option<DateTimeField>,
        fractional_seconds_precision: Option<u64>,
    },
    /// `NULL` value.
    Null,
}

/// The keyword of a date or time field.
pub open spec fn date_time_field_text(field: DateTimeField) -> Seq<char> {
    match field {
        DateTimeField::Year => "YEAR"@,
        DateTimeField::Month => "MONTH"@,
        DateTimeField::Day => "DAY"@,
        DateTimeField::Hour => "HOUR"@,
        DateTimeField::Minute => "MINUTE"@,
        DateTimeField::Second => "SECOND"@,
    }
}

/// Whether an interval is the seconds-only form, which carries both
/// precisions in one pair of parentheses.
pub open spec fn is_seconds_interval(
    leading_field: Option<DateTimeField>,
    leading_precision: Option<u64>,
    fractional_seconds_precision: Option<u64>,
) -> bool {
    leading_field == Some(DateTimeField::Second) && leading_precision is Some
        && fractional_seconds_precision is Some
}

/// Whether a value meets the structural invariant that rendering relies on:
/// a seconds-only interval has no last field.
pub open spec fn value_wf(v: Value) -> bool {
    match v {
        Value::Interval {
            value,
            leading_field,
            leading_precision,
            last_field,
            fractional_seconds_precision,
        } => is_seconds_interval(leading_field, leading_precision, fractional_seconds_precision)
            ==> last_field is None,
        _ => true,
    }
}

/// ` ` and the field's keyword, or nothing.
pub open spec fn optional_field_text(lead: Seq<char>, field: Option<DateTimeField>) -> Seq<char> {
    match field {
        Some(fld) => lead + date_time_field_text(fld),
        None => Seq::empty(),
    }
}

/// ` (` the precision `)`, or nothing.
pub open spec fn optional_precision_text(precision: Option<u64>) -> Seq<char> {
    match precision {
        Some(p) => " ("@ + decimal(p as nat) + ")"@,
        None => Seq::empty(),
    }
}

/// The SQL text of an interval literal.
pub open spec fn interval_text(
    value: Seq<char>,
    leading_field: Option<DateTimeField>,
    leading_precision: Option<u64>,
    last_field: Option<DateTimeField>,
    fractional_seconds_precision: Option<u64>,
) -> Seq<char> {
    if is_seconds_interval(leading_field, leading_precision, fractional_seconds_precision) {
        "INTERVAL '"@ + escaped(value) + "' SECOND ("@ + decimal(leading_precision.unwrap() as nat)
            + ", "@ + decimal(fractional_seconds_precision.unwrap() as nat) + ")"@
    } else {
        "INTERVAL '"@ + escaped(value) + "'"@ + optional_field_text(" "@, leading_field)
            + optional_precision_text(leading_precision) + optional_field_text(" TO "@, last_field)
            + optional_precision_text(fractional_seconds_precision)
    }
}

/// The text of a boolean literal.
pub open spec fn boolean_text(b: bool) -> Seq<char> {
    if b {
        "true"@
    } else {
        "false"@
    }
}

/// The SQL text of a literal value.
pub open spec fn value_text(v: Value) -> Seq<char> {
    match v {
        Value::Number(digits, long) => digits@ + if long {
            "L"@
        } else {
            Seq::empty()
        },
        Value::DoubleQuotedString(s) => "\""@ + s@ + "\""@,
        Value::SingleQuotedString(s) => "'"@ + escaped(s@) + "'"@,
        Value::NationalStringLiteral(s) => "N'"@ + s@ + "'"@,
        Value::HexStringLiteral(s) => "X'"@ + s@ + "'"@,
        Value::Boolean(b) => boolean_text(b),
        Value::Interval {
            value,
            leading_field,
            leading_precision,
            last_field,
            fractional_seconds_precision,
        } => interval_text(
            value@,
            leading_field,
            leading_precision,
            last_field,
            fractional_seconds_precision,
        ),
        Value::Null => "NULL"@,
    }
}

/// The keyword of a date or time field.
pub fn date_time_field_keyword(field: &DateTimeField) -> (r: &'static str)
    ensures
        r@ == date_time_field_text(*field),
{
    match field {
        DateTimeField::Year => "YEAR",
        DateTimeField::Month => "MONTH",
        DateTimeField::Day => "DAY",
        DateTimeField::Hour => "HOUR",
        DateTimeField::Minute => "MINUTE",
        DateTimeField::Second => "SECOND",
    }
}

fn write_optional_field(f: &mut String, lead: &str, field: &Option<DateTimeField>)
    ensures
        final(f)@ == appended(old(f)@, optional_field_text(lead@, *field)),
{
    if let Some(fld) = field {
        put(f, lead);
        put(f, date_time_field_keyword(fld));
    }
}

fn write_optional_precision(f: &mut String, precision: &Option<u64>)
    ensures
        final(f)@ == appended(old(f)@, optional_precision_text(*precision)),
{
    if let Some(p) = precision {
        put(f, " (");
        write_decimal(f, *p);
        put(f, ")");
    }
}

fn is_second(field: &Option<DateTimeField>) -> (r: bool)
    ensures
        r == (*field == Some(DateTimeField::Second)),
{
    match field {
        Some(DateTimeField::Second) => true,
        _ => false,
    }
}

fn write_interval(
    f: &mut String,
    value: &String,
    leading_field: &Option<DateTimeField>,
    leading_precision: &Option<u64>,
    last_field: &Option<DateTimeField>,
    fractional_seconds_precision: &Option<u64>,
)
    ensures
        final(f)@ == appended(old(f)@, interval_text(
            value@,
            *leading_field,
            *leading_precision,
            *last_field,
            *fractional_seconds_precision,
        )),
{
    put(f, "INTERVAL '");
    write_escaped(f, value.as_str());
    match (is_second(leading_field), leading_precision, fractional_seconds_precision) {
        (true, Some(lp), Some(fp)) => {
            put(f, "' SECOND (");
            write_decimal(f, *lp);
            put(f, ", ");
            write_decimal(f, *fp);
            put(f, ")");
        },
        _ => {
            put(f, "'");
            write_optional_field(f, " ", leading_field);
            write_optional_precision(f, leading_precision);
            write_optional_field(f, " TO ", last_field);
            write_optional_precision(f, fractional_seconds_precision);
        },
    }
}

/// Appends the SQL text of a literal value.
pub fn write_value(v: &Value, f: &mut String)
    requires
        value_wf(*v),
    ensures
        final(f)@ == appended(old(f)@, value_text(*v)),
{
    match v {
        Value::Number(digits, long) => {
            put(f, digits.as_str());
            if *long {
                put(f, "L");
            }
        },
        Value::DoubleQuotedString(s) => {
            put(f, "\"");
            put(f, s.as_str());
            put(f, "\"");
        },
        Value::SingleQuotedString(s) => {
            put(f, "'");
            write_escaped(f, s.as_str());
            put(f, "'");
        },
        Value::NationalStringLiteral(s) => {
            put(f, "N'");
            put(f, s.as_str());
            put(f, "'");
        },
        Value::HexStringLiteral(s) => {
            put(f, "X'");
            put(f, s.as_str());
            put(f, "'");
        },
        Value::Boolean(b) => {
            if *b {
                put(f, "true");
            } else {
                put(f, "false");
            }
        },
        Value::Interval {
            value,
            leading_field,
            leading_precision,
            last_field,
            fractional_seconds_precision,
        } => write_interval(
            f,
            value,
            leading_field,
            leading_precision,
            last_field,
            fractional_seconds_precision,
        ),
        Value::Null => put(f, "NULL"),
    }
}

/// Whether a value is well formed.
pub fn check_value(v: &Value) -> (r: bool)
    ensures
        r == value_wf(*v),
{
    match v {
        Value::Interval {
            value,
            leading_field,
            leading_precision,
            last_field,
            fractional_seconds_precision,
        } => !(is_second(leading_field) && leading_precision.is_some()
            && fractional_seconds_precision.is_some()) || last_field.is_none(),
        _ => true,
    }
}
} // verus!
