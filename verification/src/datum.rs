//! The values that rows of built-in tables are made of.

use vstd::prelude::*;

verus! {

/// One value of a row.
#[derive(Clone, Debug, PartialEq, Eq)]
pub enum Datum {
    /// SQL `NULL`.
    Null,
    /// The boolean `false`.
    False,
    /// The boolean `true`.
    True,
    /// A 64-bit signed integer.
    Int64(i64),
    /// A 32-bit unsigned integer (an object identifier).
    UInt32(u32),
    /// A text value.
    String(String),
    /// A one-dimensional text array whose lower bound is 1.
    TextArray(Vec<String>),
}

/// The mathematical value of a [`Datum`].
pub enum DatumValue {
    Null,
    False,
    True,
    Int64(i64),
    UInt32(u32),
    String(Seq<char>),
    TextArray(Seq<Seq<char>>),
}

/// The texts of a sequence of strings.
pub open spec fn texts(s: Seq<String>) -> Seq<Seq<char>> {
    s.map_values(|t: String| t@)
}

impl View for Datum {
    type V = DatumValue;

    open spec fn view(&self) -> DatumValue {
        match self {
            Datum::Null => DatumValue::Null,
            Datum::False => DatumValue::False,
            Datum::True => DatumValue::True,
            Datum::Int64(x) => DatumValue::Int64(*x),
            Datum::UInt32(x) => DatumValue::UInt32(*x),
            Datum::String(s) => DatumValue::String(s@),
            Datum::TextArray(a) => DatumValue::TextArray(texts(a@)),
        }
    }
}

/// The boolean `b` as a value.
pub open spec fn bool_value(b: bool) -> DatumValue {
    if b {
        DatumValue::True
    } else {
        DatumValue::False
    }
}

/// An optional integer as a value: `NULL` when absent.
pub open spec fn opt_int_value(x: Option<i64>) -> DatumValue {
    match x {
        Some(v) => DatumValue::Int64(v),
        None => DatumValue::Null,
    }
}

/// An optional text as a value: `NULL` when absent.
pub open spec fn opt_text_value(x: Option<Seq<char>>) -> DatumValue {
    match x {
        Some(s) => DatumValue::String(s),
        None => DatumValue::Null,
    }
}

impl Datum {
    /// The boolean `b` as a datum.
    pub fn from_bool(b: bool) -> (d: Datum)
        ensures
            d@ == bool_value(b),
    {
        if b {
            Datum::True
        } else {
            Datum::False
        }
    }

    /// An optional integer as a datum: `NULL` when absent.
    pub fn from_option_i64(x: Option<i64>) -> (d: Datum)
        ensures
            d@ == opt_int_value(x),
    {
        match x {
            Some(v) => Datum::Int64(v),
            None => Datum::Null,
        }
    }

    /// An optional text as a datum: `NULL` when absent.
    pub fn from_option_string(x: Option<String>) -> (d: Datum)
        ensures
            d@ == opt_text_value(
                match x {
                    Some(s) => Some(s@),
                    None => None,
                },
            ),
    {
        match x {
            Some(s) => Datum::String(s),
            None => Datum::Null,
        }
    }
}

/// The values of a sequence of datums.
pub open spec fn datum_values(s: Seq<Datum>) -> Seq<DatumValue> {
    s.map_values(|d: Datum| d@)
}

/// A row of a table: a sequence of datums.
#[derive(Clone, Debug, PartialEq, Eq)]
pub struct Row {
    datums: Vec<Datum>,
}

impl View for Row {
    type V = Seq<DatumValue>;

    closed spec fn view(&self) -> Seq<DatumValue> {
        datum_values(self.datums@)
    }
}

impl Row {
    /// Packs the given datums, in order, into a row.
    pub fn pack_slice(datums: Vec<Datum>) -> (row: Row)
        ensures
            row@ == datum_values(datums@),
    {
        Row { datums }
    }

    /// The datums of this row, in order.
    pub fn unpack(&self) -> (datums: &Vec<Datum>)
        ensures
            datum_values(datums@) == self@,
    {
        &self.datums
    }

    /// The number of datums in this row.
    pub fn len(&self) -> (n: usize)
        ensures
            n == self@.len(),
    {
        self.datums.len()
    }
}

} // verus!
