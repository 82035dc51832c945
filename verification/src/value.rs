//! Dynamically typed values and the cell kinds they are classified into.

use vstd::prelude::*;

verus! {

/// The fields of a calendar date with a time of day.
#[derive(Clone, Copy, Debug, PartialEq, Eq)]
pub struct DateTimeParts {
    pub year: u16,
    pub month: u8,
    pub day: u8,
    pub hour: u16,
    pub minute: u8,
    pub second: u8,
}

/// A dynamically typed value, as the conversions of its host show it.
///
/// Each field holds what one conversion of the value gave, and `None` where
/// the value refused that conversion. One value may allow several: a host
/// integer usually converts to a double as well, and most values have a text
/// form. A value that allows none is still a value, it only has nothing to
/// show. The null of the host is no `DynamicValue`: a record holds `None` in
/// its place.
#[derive(Clone, Debug, PartialEq)]
pub struct DynamicValue {
    /// The fields of the value, where it is a date with a time.
    pub date_time: Option<DateTimeParts>,
    /// The value as a signed 64-bit integer.
    pub integer: Option<i64>,
    /// The value as a double, given by its IEEE 754 bit pattern.
    pub float: Option<u64>,
    /// The value as a boolean.
    pub boolean: Option<bool>,
    /// The value as text.
    pub text: Option<String>,
}

impl DynamicValue {
    /// The value that allows no conversion.
    pub open spec fn unconvertible_value() -> DynamicValue {
        DynamicValue { date_time: None, integer: None, float: None, boolean: None, text: None }
    }

    /// A value that allows no conversion.
    pub fn unconvertible() -> (value: DynamicValue)
        ensures
            value == Self::unconvertible_value(),
    {
        DynamicValue { date_time: None, integer: None, float: None, boolean: None, text: None }
    }

    /// A value that is a date with a time, and nothing else.
    pub fn from_date_time(parts: DateTimeParts) -> (value: DynamicValue)
        ensures
            value == (DynamicValue { date_time: Some(parts), ..Self::unconvertible_value() }),
    {
        DynamicValue {
            date_time: Some(parts),
            integer: None,
            float: None,
            boolean: None,
            text: None,
        }
    }

    /// A value that is an integer, and nothing else.
    pub fn from_integer(number: i64) -> (value: DynamicValue)
        ensures
            value == (DynamicValue { integer: Some(number), ..Self::unconvertible_value() }),
    {
        DynamicValue {
            date_time: None,
            integer: Some(number),
            float: None,
            boolean: None,
            text: None,
        }
    }

    /// A value that is the double with the bit pattern `bits`, and nothing
    /// else.
    pub fn from_float_bits(bits: u64) -> (value: DynamicValue)
        ensures
            value == (DynamicValue { float: Some(bits), ..Self::unconvertible_value() }),
    {
        DynamicValue { date_time: None, integer: None, float: Some(bits), boolean: None, text: None }
    }

    /// A value that is a boolean, and nothing else.
    pub fn from_boolean(flag: bool) -> (value: DynamicValue)
        ensures
            value == (DynamicValue { boolean: Some(flag), ..Self::unconvertible_value() }),
    {
        DynamicValue { date_time: None, integer: None, float: None, boolean: Some(flag), text: None }
    }

    /// A value that is a text, and nothing else.
    pub fn from_text(text: String) -> (value: DynamicValue)
        ensures
            value == (DynamicValue { text: Some(text), ..Self::unconvertible_value() }),
    {
        DynamicValue { date_time: None, integer: None, float: None, boolean: None, text: Some(text) }
    }
}

/// The content of one spreadsheet cell.
#[derive(Clone, Debug, PartialEq)]
pub enum CellValue {
    Empty,
    Text(String),
    Integer(i64),
    /// A double, given by its IEEE 754 bit pattern.
    Float(u64),
    Boolean(bool),
    DateTime(DateTimeParts),
}

/// What a `CellValue` stands for.
pub enum CellContent {
    Empty,
    Text(Seq<char>),
    Integer(i64),
    Float(u64),
    Boolean(bool),
    DateTime(DateTimeParts),
}

impl View for CellValue {
    type V = CellContent;

    open spec fn view(&self) -> CellContent {
        match *self {
            CellValue::Empty => CellContent::Empty,
            CellValue::Text(text) => CellContent::Text(text@),
            CellValue::Integer(number) => CellContent::Integer(number),
            CellValue::Float(bits) => CellContent::Float(bits),
            CellValue::Boolean(flag) => CellContent::Boolean(flag),
            CellValue::DateTime(parts) => CellContent::DateTime(parts),
        }
    }
}

/// The cell content of an optional value: the first conversion that the value
/// allows decides, in the order date-time, integer, double, boolean, text.
/// A missing value, and one that allows no conversion, give an empty cell.
pub open spec fn classified(value: Option<DynamicValue>) -> CellContent {
    match value {
        None => CellContent::Empty,
        Some(v) => {
            if let Some(parts) = v.date_time {
                CellContent::DateTime(parts)
            } else if let Some(number) = v.integer {
                CellContent::Integer(number)
            } else if let Some(bits) = v.float {
                CellContent::Float(bits)
            } else if let Some(flag) = v.boolean {
                CellContent::Boolean(flag)
            } else if let Some(text) = v.text {
                CellContent::Text(text@)
            } else {
                CellContent::Empty
            }
        },
    }
}

/// Classifies an optional value into the content of its cell.
pub fn classify(value: Option<&DynamicValue>) -> (cell: CellValue)
    ensures
        cell@ == classified(
            match value {
                Some(v) => Some(*v),
                None => None,
            },
        ),
{
    match value {
        None => CellValue::Empty,
        Some(v) => {
            if let Some(parts) = v.date_time {
                CellValue::DateTime(parts)
            } else if let Some(number) = v.integer {
                CellValue::Integer(number)
            } else if let Some(bits) = v.float {
                CellValue::Float(bits)
            } else if let Some(flag) = v.boolean {
                CellValue::Boolean(flag)
            } else if let Some(text) = &v.text {
                CellValue::Text(text.clone())
            } else {
                CellValue::Empty
            }
        },
    }
}

/// A value with the shape of a date with a time is classified as one,
/// whatever else the value converts to.
pub proof fn date_time_is_classified_first(value: DynamicValue)
    requires
        value.date_time is Some,
    ensures
        classified(Some(value)) == CellContent::DateTime(value.date_time->0),
{
}

/// A value that converts to a signed 64-bit integer is never classified as a
/// double, and is classified as that integer unless it is a date with a time.
pub proof fn integer_is_never_a_float(value: DynamicValue)
    requires
        value.integer is Some,
    ensures
        !(classified(Some(value)) is Float),
        value.date_time is None ==> classified(Some(value)) == CellContent::Integer(
            value.integer->0,
        ),
{
}

/// A value that converts to a double and to no integer is classified as
/// that double, whatever boolean or text it also converts to. A whole double
/// is such a value: it stays a double.
pub proof fn float_comes_before_boolean_and_text(value: DynamicValue)
    requires
        value.date_time is None,
        value.integer is None,
        value.float is Some,
    ensures
        classified(Some(value)) == CellContent::Float(value.float->0),
{
}

/// A value that allows no conversion gives an empty cell, as a missing value
/// does.
pub proof fn unconvertible_value_is_empty(value: DynamicValue)
    requires
        value.date_time is None,
        value.integer is None,
        value.float is None,
        value.boolean is None,
        value.text is None,
    ensures
        classified(Some(value)) == CellContent::Empty,
        classified(Some(value)) == classified(None),
{
}

} // verus!
