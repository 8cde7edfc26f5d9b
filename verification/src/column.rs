//! A declared column and the values appended to it.

use vstd::prelude::*;
use crate::error::Error;
use crate::schema::DataType;
use crate::util::{convert_c_string, spec_convert_c_string};
use crate::value::{
    bool_member, i16_member, i32_member, i64_member, i8_member, spec_bool_member, spec_i16_member,
    spec_i32_member, spec_i64_member, spec_i8_member, spec_u16_member, spec_u32_member,
    spec_u8_member, u16_member, u32_member, u8_member, Value, ValueView,
};

verus! {

/// The values of one column, in the layout of the database's protocol: one
/// sequence for each type of column, of which a column fills the one that
/// belongs to its type. Floating point values are held as IEEE 754 bit
/// patterns.
#[derive(Debug, PartialEq, Eq)]
pub struct Values {
    pub i8_values: Vec<i32>,
    pub i16_values: Vec<i32>,
    pub i32_values: Vec<i32>,
    pub i64_values: Vec<i64>,
    pub u8_values: Vec<u32>,
    pub u16_values: Vec<u32>,
    pub u32_values: Vec<u32>,
    pub u64_values: Vec<u64>,
    pub f32_values: Vec<u32>,
    pub f64_values: Vec<u64>,
    pub bool_values: Vec<bool>,
    pub string_values: Vec<String>,
    pub timestamp_second_values: Vec<i64>,
    pub timestamp_millisecond_values: Vec<i64>,
    pub timestamp_microsecond_values: Vec<i64>,
    pub timestamp_nanosecond_values: Vec<i64>,
}

/// The mathematical content of `Values`.
#[verifier::ext_equal]
pub struct ValuesView {
    pub i8_values: Seq<i32>,
    pub i16_values: Seq<i32>,
    pub i32_values: Seq<i32>,
    pub i64_values: Seq<i64>,
    pub u8_values: Seq<u32>,
    pub u16_values: Seq<u32>,
    pub u32_values: Seq<u32>,
    pub u64_values: Seq<u64>,
    pub f32_values: Seq<u32>,
    pub f64_values: Seq<u64>,
    pub bool_values: Seq<bool>,
    pub string_values: Seq<Seq<char>>,
    pub timestamp_second_values: Seq<i64>,
    pub timestamp_millisecond_values: Seq<i64>,
    pub timestamp_microsecond_values: Seq<i64>,
    pub timestamp_nanosecond_values: Seq<i64>,
}

impl ValuesView {
    /// No value of any type.
    pub open spec fn empty() -> ValuesView {
        ValuesView {
            i8_values: Seq::empty(),
            i16_values: Seq::empty(),
            i32_values: Seq::empty(),
            i64_values: Seq::empty(),
            u8_values: Seq::empty(),
            u16_values: Seq::empty(),
            u32_values: Seq::empty(),
            u64_values: Seq::empty(),
            f32_values: Seq::empty(),
            f64_values: Seq::empty(),
            bool_values: Seq::empty(),
            string_values: Seq::empty(),
            timestamp_second_values: Seq::empty(),
            timestamp_millisecond_values: Seq::empty(),
            timestamp_microsecond_values: Seq::empty(),
            timestamp_nanosecond_values: Seq::empty(),
        }
    }

    /// The number of values held, over all types.
    pub open spec fn len(self) -> nat {
        self.i8_values.len() + self.i16_values.len() + self.i32_values.len()
            + self.i64_values.len() + self.u8_values.len() + self.u16_values.len()
            + self.u32_values.len() + self.u64_values.len() + self.f32_values.len()
            + self.f64_values.len() + self.bool_values.len() + self.string_values.len()
            + self.timestamp_second_values.len() + self.timestamp_millisecond_values.len()
            + self.timestamp_microsecond_values.len() + self.timestamp_nanosecond_values.len()
    }

    /// These values after one more cell, read as `data_type`, is appended, or
    /// the reason why the cell cannot be read.
    pub open spec fn appended(self, data_type: DataType, value: ValueView) -> Result<ValuesView, Error> {
        match data_type {
            DataType::Boolean => Ok(
                ValuesView { bool_values: self.bool_values.push(spec_bool_member(value.bits)), ..self },
            ),
            DataType::Int8 => Ok(
                ValuesView { i8_values: self.i8_values.push(spec_i8_member(value.bits)), ..self },
            ),
            DataType::Int16 => Ok(
                ValuesView { i16_values: self.i16_values.push(spec_i16_member(value.bits)), ..self },
            ),
            DataType::Int32 => Ok(
                ValuesView { i32_values: self.i32_values.push(spec_i32_member(value.bits)), ..self },
            ),
            DataType::Int64 => Ok(
                ValuesView { i64_values: self.i64_values.push(spec_i64_member(value.bits)), ..self },
            ),
            DataType::Uint8 => Ok(
                ValuesView { u8_values: self.u8_values.push(spec_u8_member(value.bits)), ..self },
            ),
            DataType::Uint16 => Ok(
                ValuesView { u16_values: self.u16_values.push(spec_u16_member(value.bits)), ..self },
            ),
            DataType::Uint32 => Ok(
                ValuesView { u32_values: self.u32_values.push(spec_u32_member(value.bits)), ..self },
            ),
            DataType::Uint64 => Ok(ValuesView { u64_values: self.u64_values.push(value.bits), ..self }),
            DataType::Float32 => Ok(
                ValuesView { f32_values: self.f32_values.push(spec_u32_member(value.bits)), ..self },
            ),
            DataType::Float64 => Ok(ValuesView { f64_values: self.f64_values.push(value.bits), ..self }),
            DataType::String => match spec_convert_c_string(value.text) {
                Ok(text) => Ok(ValuesView { string_values: self.string_values.push(text), ..self }),
                Err(e) => Err(e),
            },
            DataType::TimestampSecond => Ok(
                ValuesView {
                    timestamp_second_values: self.timestamp_second_values.push(
                        spec_i64_member(value.bits),
                    ),
                    ..self
                },
            ),
            DataType::TimestampMillisecond => Ok(
                ValuesView {
                    timestamp_millisecond_values: self.timestamp_millisecond_values.push(
                        spec_i64_member(value.bits),
                    ),
                    ..self
                },
            ),
            DataType::TimestampMicrosecond => Ok(
                ValuesView {
                    timestamp_microsecond_values: self.timestamp_microsecond_values.push(
                        spec_i64_member(value.bits),
                    ),
                    ..self
                },
            ),
            DataType::TimestampNanosecond => Ok(
                ValuesView {
                    timestamp_nanosecond_values: self.timestamp_nanosecond_values.push(
                        spec_i64_member(value.bits),
                    ),
                    ..self
                },
            ),
        }
    }
}

/// The texts of a sequence of strings.
pub open spec fn texts(strings: Seq<String>) -> Seq<Seq<char>> {
    strings.map_values(|s: String| s@)
}

impl View for Values {
    type V = ValuesView;

    open spec fn view(&self) -> ValuesView {
        ValuesView {
            i8_values: self.i8_values@,
            i16_values: self.i16_values@,
            i32_values: self.i32_values@,
            i64_values: self.i64_values@,
            u8_values: self.u8_values@,
            u16_values: self.u16_values@,
            u32_values: self.u32_values@,
            u64_values: self.u64_values@,
            f32_values: self.f32_values@,
            f64_values: self.f64_values@,
            bool_values: self.bool_values@,
            string_values: texts(self.string_values@),
            timestamp_second_values: self.timestamp_second_values@,
            timestamp_millisecond_values: self.timestamp_millisecond_values@,
            timestamp_microsecond_values: self.timestamp_microsecond_values@,
            timestamp_nanosecond_values: self.timestamp_nanosecond_values@,
        }
    }
}

impl Values {
    /// No value of any type.
    pub fn new() -> (v: Values)
        ensures
            v@ == ValuesView::empty(),
    {
        let v = Values {
            i8_values: Vec::new(),
            i16_values: Vec::new(),
            i32_values: Vec::new(),
            i64_values: Vec::new(),
            u8_values: Vec::new(),
            u16_values: Vec::new(),
            u32_values: Vec::new(),
            u64_values: Vec::new(),
            f32_values: Vec::new(),
            f64_values: Vec::new(),
            bool_values: Vec::new(),
            string_values: Vec::new(),
            timestamp_second_values: Vec::new(),
            timestamp_millisecond_values: Vec::new(),
            timestamp_microsecond_values: Vec::new(),
            timestamp_nanosecond_values: Vec::new(),
        };
        assert(v@ =~= ValuesView::empty());
        v
    }

    /// Appends one cell, read as `data_type`.
    ///
    /// Only a string cell can fail: with `NullPointer` when it has no text and
    /// with `InvalidCString` when its text is not UTF-8. Nothing is appended
    /// then.
    pub fn push(&mut self, data_type: DataType, value: &Value) -> (r: Result<(), Error>)
        ensures
            match old(self)@.appended(data_type, value@) {
                Ok(values) => r is Ok && final(self)@ == values,
                Err(e) => r == Err::<(), Error>(e) && final(self)@ == old(self)@,
            },
    {
        match data_type {
            DataType::Boolean => self.bool_values.push(bool_member(value.bits)),
            DataType::Int8 => self.i8_values.push(i8_member(value.bits)),
            DataType::Int16 => self.i16_values.push(i16_member(value.bits)),
            DataType::Int32 => self.i32_values.push(i32_member(value.bits)),
            DataType::Int64 => self.i64_values.push(i64_member(value.bits)),
            DataType::Uint8 => self.u8_values.push(u8_member(value.bits)),
            DataType::Uint16 => self.u16_values.push(u16_member(value.bits)),
            DataType::Uint32 => self.u32_values.push(u32_member(value.bits)),
            DataType::Uint64 => self.u64_values.push(value.bits),
            DataType::Float32 => self.f32_values.push(u32_member(value.bits)),
            DataType::Float64 => self.f64_values.push(value.bits),
            DataType::String => {
                let text = match &value.text {
                    Some(t) => convert_c_string(Some(t.as_slice())),
                    None => convert_c_string(None),
                };
                match text {
                    Ok(s) => {
                        self.string_values.push(s);
                        assert(texts(self.string_values@) =~= texts(old(self).string_values@).push(s@));
                    },
                    Err(e) => {
                        return Err(e);
                    },
                }
            },
            DataType::TimestampSecond => self.timestamp_second_values.push(i64_member(value.bits)),
            DataType::TimestampMillisecond => self.timestamp_millisecond_values.push(
                i64_member(value.bits),
            ),
            DataType::TimestampMicrosecond => self.timestamp_microsecond_values.push(
                i64_member(value.bits),
            ),
            DataType::TimestampNanosecond => self.timestamp_nanosecond_values.push(
                i64_member(value.bits),
            ),
        }
        Ok(())
    }
}

/// A declared column and the values appended to it.
#[derive(Debug, PartialEq, Eq)]
pub struct Column {
    pub column_name: String,
    /// The protocol code of the column's role.
    pub semantic_type: i32,
    /// The protocol code of the column's type.
    pub datatype: i32,
    pub values: Values,
}

/// The mathematical content of a `Column`.
#[verifier::ext_equal]
pub struct ColumnView {
    pub column_name: Seq<char>,
    pub semantic_type: i32,
    pub datatype: i32,
    pub values: ValuesView,
}

impl ColumnView {
    /// The number of values appended to the column.
    pub open spec fn len(self) -> nat {
        self.values.len()
    }

    /// The column with the same declaration and no values.
    pub open spec fn emptied(self) -> ColumnView {
        ColumnView { values: ValuesView::empty(), ..self }
    }

    /// The column after one more cell is appended, or the reason why it
    /// cannot be: `UnsupportedDataType` where the builder cannot fill columns
    /// of this type, else what reading the cell as that type gives.
    pub open spec fn appended(self, value: ValueView) -> Result<ColumnView, Error> {
        match DataType::spec_from_code(self.datatype) {
            None => Err(Error::UnsupportedDataType { data_type: self.datatype }),
            Some(data_type) => match self.values.appended(data_type, value) {
                Ok(values) => Ok(ColumnView { values: values, ..self }),
                Err(e) => Err(e),
            },
        }
    }
}

impl View for Column {
    type V = ColumnView;

    open spec fn view(&self) -> ColumnView {
        ColumnView {
            column_name: self.column_name@,
            semantic_type: self.semantic_type,
            datatype: self.datatype,
            values: self.values@,
        }
    }
}

impl Column {
    /// Appends one cell to the column, read as the column's type says.
    ///
    /// On failure the column is left as it was.
    pub fn push(&mut self, value: &Value) -> (r: Result<(), Error>)
        ensures
            match old(self)@.appended(value@) {
                Ok(column) => r is Ok && final(self)@ == column,
                Err(e) => r == Err::<(), Error>(e) && final(self)@ == old(self)@,
            },
    {
        match DataType::from_code(self.datatype) {
            None => Err(Error::UnsupportedDataType { data_type: self.datatype }),
            Some(data_type) => self.values.push(data_type, value),
        }
    }
}

} // verus!
