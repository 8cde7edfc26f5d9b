//! The types and roles a column can be declared with, by their codes in the
//! database's protocol.

use vstd::prelude::*;

verus! {

/// The types of column whose values a builder can append.
#[derive(Debug, Clone, Copy, PartialEq, Eq, Structural)]
pub enum DataType {
    Boolean,
    Int8,
    Int16,
    Int32,
    Int64,
    Uint8,
    Uint16,
    Uint32,
    Uint64,
    Float32,
    Float64,
    String,
    TimestampSecond,
    TimestampMillisecond,
    TimestampMicrosecond,
    TimestampNanosecond,
}

impl DataType {
    /// The code of the type in the database's protocol.
    pub open spec fn spec_code(self) -> i32 {
        match self {
            DataType::Boolean => 0,
            DataType::Int8 => 1,
            DataType::Int16 => 2,
            DataType::Int32 => 3,
            DataType::Int64 => 4,
            DataType::Uint8 => 5,
            DataType::Uint16 => 6,
            DataType::Uint32 => 7,
            DataType::Uint64 => 8,
            DataType::Float32 => 9,
            DataType::Float64 => 10,
            DataType::String => 12,
            DataType::TimestampSecond => 15,
            DataType::TimestampMillisecond => 16,
            DataType::TimestampMicrosecond => 17,
            DataType::TimestampNanosecond => 18,
        }
    }

    /// The code of the type in the database's protocol.
    #[verifier::when_used_as_spec(spec_code)]
    pub fn code(self) -> (c: i32)
        ensures
            c == self.spec_code(),
    {
        match self {
            DataType::Boolean => 0,
            DataType::Int8 => 1,
            DataType::Int16 => 2,
            DataType::Int32 => 3,
            DataType::Int64 => 4,
            DataType::Uint8 => 5,
            DataType::Uint16 => 6,
            DataType::Uint32 => 7,
            DataType::Uint64 => 8,
            DataType::Float32 => 9,
            DataType::Float64 => 10,
            DataType::String => 12,
            DataType::TimestampSecond => 15,
            DataType::TimestampMillisecond => 16,
            DataType::TimestampMicrosecond => 17,
            DataType::TimestampNanosecond => 18,
        }
    }

    /// The type that a protocol code stands for, if the builder can fill it.
    pub open spec fn spec_from_code(code: i32) -> Option<DataType> {
        if code == 0 {
            Some(DataType::Boolean)
        } else if code == 1 {
            Some(DataType::Int8)
        } else if code == 2 {
            Some(DataType::Int16)
        } else if code == 3 {
            Some(DataType::Int32)
        } else if code == 4 {
            Some(DataType::Int64)
        } else if code == 5 {
            Some(DataType::Uint8)
        } else if code == 6 {
            Some(DataType::Uint16)
        } else if code == 7 {
            Some(DataType::Uint32)
        } else if code == 8 {
            Some(DataType::Uint64)
        } else if code == 9 {
            Some(DataType::Float32)
        } else if code == 10 {
            Some(DataType::Float64)
        } else if code == 12 {
            Some(DataType::String)
        } else if code == 15 {
            Some(DataType::TimestampSecond)
        } else if code == 16 {
            Some(DataType::TimestampMillisecond)
        } else if code == 17 {
            Some(DataType::TimestampMicrosecond)
        } else if code == 18 {
            Some(DataType::TimestampNanosecond)
        } else {
            None
        }
    }

    /// The type that a protocol code stands for, if the builder can fill it.
    #[verifier::when_used_as_spec(spec_from_code)]
    pub fn from_code(code: i32) -> (t: Option<DataType>)
        ensures
            t == Self::spec_from_code(code),
    {
        if code == 0 {
            Some(DataType::Boolean)
        } else if code == 1 {
            Some(DataType::Int8)
        } else if code == 2 {
            Some(DataType::Int16)
        } else if code == 3 {
            Some(DataType::Int32)
        } else if code == 4 {
            Some(DataType::Int64)
        } else if code == 5 {
            Some(DataType::Uint8)
        } else if code == 6 {
            Some(DataType::Uint16)
        } else if code == 7 {
            Some(DataType::Uint32)
        } else if code == 8 {
            Some(DataType::Uint64)
        } else if code == 9 {
            Some(DataType::Float32)
        } else if code == 10 {
            Some(DataType::Float64)
        } else if code == 12 {
            Some(DataType::String)
        } else if code == 15 {
            Some(DataType::TimestampSecond)
        } else if code == 16 {
            Some(DataType::TimestampMillisecond)
        } else if code == 17 {
            Some(DataType::TimestampMicrosecond)
        } else if code == 18 {
            Some(DataType::TimestampNanosecond)
        } else {
            None
        }
    }
}

/// The part a column plays in its table.
#[derive(Debug, Clone, Copy, PartialEq, Eq, Structural)]
pub enum Role {
    Tag,
    Field,
    Timestamp,
}

impl Role {
    /// The code of the role in the database's protocol.
    pub open spec fn spec_code(self) -> i32 {
        match self {
            Role::Tag => 0,
            Role::Field => 1,
            Role::Timestamp => 2,
        }
    }

    /// The code of the role in the database's protocol.
    #[verifier::when_used_as_spec(spec_code)]
    pub fn code(self) -> (c: i32)
        ensures
            c == self.spec_code(),
    {
        match self {
            Role::Tag => 0,
            Role::Field => 1,
            Role::Timestamp => 2,
        }
    }

    /// The role that a protocol code stands for, if any.
    pub open spec fn spec_from_code(code: i32) -> Option<Role> {
        if code == 0 {
            Some(Role::Tag)
        } else if code == 1 {
            Some(Role::Field)
        } else if code == 2 {
            Some(Role::Timestamp)
        } else {
            None
        }
    }

    /// The role that a protocol code stands for, if any.
    #[verifier::when_used_as_spec(spec_from_code)]
    pub fn from_code(code: i32) -> (r: Option<Role>)
        ensures
            r == Self::spec_from_code(code),
    {
        if code == 0 {
            Some(Role::Tag)
        } else if code == 1 {
            Some(Role::Field)
        } else if code == 2 {
            Some(Role::Timestamp)
        } else {
            None
        }
    }
}

/// The codes that the protocol's `ColumnDataType` has a variant for.
pub open spec fn known_data_type(code: i32) -> bool {
    0 <= code <= 25 || 30 <= code <= 32 || 40 <= code <= 42
}

/// The codes that the protocol's `SemanticType` has a variant for.
pub open spec fn known_semantic_type(code: i32) -> bool {
    0 <= code <= 2
}

/// `ColumnDataType::is_valid` tells whether the enumeration has a variant with
/// the given number. Its variants are numbered 0 to 25, 30 to 32 and 40 to 42.
/// The enumeration is defined in `greptime-proto`, from where
/// `greptimedb-ingester` takes it over under `api::v1`.
pub assume_specification[ greptimedb_ingester::api::v1::ColumnDataType::is_valid ](value: i32) -> (b: bool)
    ensures
        b == known_data_type(value),
;

/// `SemanticType::is_valid` tells whether the enumeration has a variant with
/// the given number. Its variants are numbered 0, 1 and 2. It is defined next
/// to `ColumnDataType`.
pub assume_specification[ greptimedb_ingester::api::v1::SemanticType::is_valid ](value: i32) -> (b: bool)
    ensures
        b == known_semantic_type(value),
;

/// Every type the builder can fill is one the protocol knows.
pub proof fn lemma_data_type_codes(t: DataType)
    ensures
        known_data_type(t.spec_code()),
        DataType::spec_from_code(t.spec_code()) == Some(t),
{
}

/// A code that names a type the builder can fill is that type's code.
pub proof fn lemma_data_type_from_code(code: i32)
    ensures
        DataType::spec_from_code(code) matches Some(t) ==> t.spec_code() == code && known_data_type(code),
{
}

/// The roles are exactly what the protocol knows as semantic types.
pub proof fn lemma_role_codes(code: i32)
    ensures
        Role::spec_from_code(code) is Some <==> known_semantic_type(code),
        Role::spec_from_code(code) matches Some(r) ==> r.spec_code() == code,
{
}

} // verus!
