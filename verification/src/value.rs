//! A cell of a row as it crosses the foreign boundary, and the members it
//! can be read through.
//!
//! The foreign side passes each cell as eight bytes that hold whichever member
//! fits the column: a truth value, an integer of one to eight bytes, a
//! floating point number, a timestamp or a pointer to a string. Nothing in the
//! bytes tells which; the column's declared type does.
//!
//! The members are laid out as C lays out a union on a little-endian machine
//! with `long` of 64 bits: every member starts at the first byte, so that a
//! member of fewer than eight bytes is the low-order part of the cell read as
//! one number.

use vstd::prelude::*;
use vstd::slice::slice_to_vec;
use vstd::string::StringSliceAdditionalSpecFns;

verus! {

/// The eight bytes of a cell read through its one-byte truth member.
pub open spec fn spec_bool_member(bits: u64) -> bool {
    bits as u8 == 1
}

/// The eight bytes of a cell read through its signed one-byte member.
pub open spec fn spec_i8_member(bits: u64) -> i32 {
    (bits as i8) as i32
}

/// The eight bytes of a cell read through its signed two-byte member.
pub open spec fn spec_i16_member(bits: u64) -> i32 {
    (bits as i16) as i32
}

/// The eight bytes of a cell read through its signed four-byte member.
pub open spec fn spec_i32_member(bits: u64) -> i32 {
    bits as i32
}

/// The eight bytes of a cell read through its signed eight-byte member.
pub open spec fn spec_i64_member(bits: u64) -> i64 {
    bits as i64
}

/// The eight bytes of a cell read through its unsigned one-byte member.
pub open spec fn spec_u8_member(bits: u64) -> u32 {
    (bits as u8) as u32
}

/// The eight bytes of a cell read through its unsigned two-byte member.
pub open spec fn spec_u16_member(bits: u64) -> u32 {
    (bits as u16) as u32
}

/// The eight bytes of a cell read through its unsigned four-byte member.
pub open spec fn spec_u32_member(bits: u64) -> u32 {
    bits as u32
}

/// Reads the one-byte truth member: true exactly when that byte is 1.
#[verifier::when_used_as_spec(spec_bool_member)]
pub fn bool_member(bits: u64) -> (v: bool)
    ensures
        v == spec_bool_member(bits),
{
    (#[verifier::truncate] (bits as u8)) == 1
}

/// Reads the signed one-byte member, widened to `i32`.
#[verifier::when_used_as_spec(spec_i8_member)]
pub fn i8_member(bits: u64) -> (v: i32)
    ensures
        v == spec_i8_member(bits),
{
    (#[verifier::truncate] (bits as i8)) as i32
}

/// Reads the signed two-byte member, widened to `i32`.
#[verifier::when_used_as_spec(spec_i16_member)]
pub fn i16_member(bits: u64) -> (v: i32)
    ensures
        v == spec_i16_member(bits),
{
    (#[verifier::truncate] (bits as i16)) as i32
}

/// Reads the signed four-byte member.
#[verifier::when_used_as_spec(spec_i32_member)]
pub fn i32_member(bits: u64) -> (v: i32)
    ensures
        v == spec_i32_member(bits),
{
    #[verifier::truncate]
    (bits as i32)
}

/// Reads the signed eight-byte member.
#[verifier::when_used_as_spec(spec_i64_member)]
pub fn i64_member(bits: u64) -> (v: i64)
    ensures
        v == spec_i64_member(bits),
{
    #[verifier::truncate]
    (bits as i64)
}

/// Reads the unsigned one-byte member, widened to `u32`.
#[verifier::when_used_as_spec(spec_u8_member)]
pub fn u8_member(bits: u64) -> (v: u32)
    ensures
        v == spec_u8_member(bits),
{
    (#[verifier::truncate] (bits as u8)) as u32
}

/// Reads the unsigned two-byte member, widened to `u32`.
#[verifier::when_used_as_spec(spec_u16_member)]
pub fn u16_member(bits: u64) -> (v: u32)
    ensures
        v == spec_u16_member(bits),
{
    (#[verifier::truncate] (bits as u16)) as u32
}

/// Reads the unsigned four-byte member.
#[verifier::when_used_as_spec(spec_u32_member)]
pub fn u32_member(bits: u64) -> (v: u32)
    ensures
        v == spec_u32_member(bits),
{
    #[verifier::truncate]
    (bits as u32)
}

/// One cell of a row as a foreign caller hands it over.
///
/// `bits` holds the eight bytes of the cell as one little-endian number, so a
/// member narrower than eight bytes lies in its low-order bytes. A floating
/// point member is carried as its IEEE 754 bit pattern. `text` holds the bytes
/// of the string that the cell's pointer member refers to, without the
/// terminating NUL; it is `None` where that pointer is null.
#[derive(Debug, PartialEq, Eq)]
pub struct Value {
    pub bits: u64,
    pub text: Option<Vec<u8>>,
}

/// The mathematical content of a `Value`.
pub struct ValueView {
    pub bits: u64,
    pub text: Option<Seq<u8>>,
}

impl View for Value {
    type V = ValueView;

    open spec fn view(&self) -> ValueView {
        ValueView {
            bits: self.bits,
            text: match self.text {
                Some(t) => Some(t@),
                None => None,
            },
        }
    }
}

impl Value {
    /// A cell with the given eight bytes and no text.
    pub fn from_bits(bits: u64) -> (v: Value)
        ensures
            v@ == (ValueView { bits: bits, text: None }),
    {
        Value { bits, text: None }
    }

    /// A cell whose string pointer refers to `text`; `None` for a null pointer.
    pub fn from_text(text: Option<Vec<u8>>) -> (v: Value)
        ensures
            v.bits == 0,
            v.text == text,
    {
        Value { bits: 0, text }
    }

    /// A cell whose string pointer refers to the bytes of `text`.
    pub fn from_str(text: &str) -> (v: Value)
        ensures
            v.bits == 0,
            v@.text == Some(text.spec_bytes()),
    {
        Value { bits: 0, text: Some(slice_to_vec(text.as_bytes())) }
    }

    /// A cell whose truth member was set.
    pub fn from_bool(b: bool) -> (v: Value)
        ensures
            v@ == (ValueView { bits: if b { 1u64 } else { 0u64 }, text: None }),
    {
        Value { bits: if b { 1 } else { 0 }, text: None }
    }

    /// A cell whose signed one-byte member was set.
    pub fn from_i8(x: i8) -> (v: Value)
        ensures
            v@ == (ValueView { bits: (x as u8) as u64, text: None }),
    {
        Value { bits: (#[verifier::truncate] (x as u8)) as u64, text: None }
    }

    /// A cell whose signed two-byte member was set.
    pub fn from_i16(x: i16) -> (v: Value)
        ensures
            v@ == (ValueView { bits: (x as u16) as u64, text: None }),
    {
        Value { bits: (#[verifier::truncate] (x as u16)) as u64, text: None }
    }

    /// A cell whose signed four-byte member was set.
    pub fn from_i32(x: i32) -> (v: Value)
        ensures
            v@ == (ValueView { bits: (x as u32) as u64, text: None }),
    {
        Value { bits: (#[verifier::truncate] (x as u32)) as u64, text: None }
    }

    /// A cell whose signed eight-byte member was set.
    pub fn from_i64(x: i64) -> (v: Value)
        ensures
            v@ == (ValueView { bits: x as u64, text: None }),
    {
        Value { bits: #[verifier::truncate] (x as u64), text: None }
    }

    /// A cell whose unsigned one-byte member was set.
    pub fn from_u8(x: u8) -> (v: Value)
        ensures
            v@ == (ValueView { bits: x as u64, text: None }),
    {
        Value { bits: x as u64, text: None }
    }

    /// A cell whose unsigned two-byte member was set.
    pub fn from_u16(x: u16) -> (v: Value)
        ensures
            v@ == (ValueView { bits: x as u64, text: None }),
    {
        Value { bits: x as u64, text: None }
    }

    /// A cell whose unsigned four-byte member was set. A single-precision
    /// floating point number is passed as its bit pattern.
    pub fn from_u32(x: u32) -> (v: Value)
        ensures
            v@ == (ValueView { bits: x as u64, text: None }),
    {
        Value { bits: x as u64, text: None }
    }
}

/// A member that was set is the member that is read, whatever its width and
/// sign.
pub proof fn lemma_member_round_trip(b: bool, x8: i8, x16: i16, x32: i32, x64: i64, y8: u8, y16: u16, y32: u32)
    ensures
        spec_bool_member(if b { 1u64 } else { 0u64 }) == b,
        spec_i8_member((x8 as u8) as u64) == x8,
        spec_i16_member((x16 as u16) as u64) == x16,
        spec_i32_member((x32 as u32) as u64) == x32,
        spec_i64_member(x64 as u64) == x64,
        spec_u8_member(y8 as u64) == y8,
        spec_u16_member(y16 as u64) == y16,
        spec_u32_member(y32 as u64) == y32,
{
    assert(1u64 as u8 == 1u8) by (bit_vector);
    assert(0u64 as u8 == 0u8) by (bit_vector);
    assert((((x8 as u8) as u64) as i8) as i32 == x8 as i32) by (bit_vector);
    assert((((x16 as u16) as u64) as i16) as i32 == x16 as i32) by (bit_vector);
    assert(((x32 as u32) as u64) as i32 == x32) by (bit_vector);
    assert((x64 as u64) as i64 == x64) by (bit_vector);
    assert(((y8 as u64) as u8) as u32 == y8 as u32) by (bit_vector);
    assert(((y16 as u64) as u16) as u32 == y16 as u32) by (bit_vector);
    assert((y32 as u64) as u32 == y32) by (bit_vector);
}

/// The members in plain arithmetic: an unsigned member is the number of the
/// cell modulo two to the power of its width, and a signed member is the same
/// residue moved into the signed range.
pub proof fn lemma_members_by_arithmetic(bits: u64)
    ensures
        spec_bool_member(bits) == (bits % 0x100 == 1),
        spec_u8_member(bits) == bits % 0x100,
        spec_u16_member(bits) == bits % 0x1_0000,
        spec_u32_member(bits) == bits % 0x1_0000_0000,
        spec_i8_member(bits) == (if bits % 0x100 < 0x80 {
            (bits % 0x100) as int
        } else {
            bits % 0x100 - 0x100
        }),
        spec_i16_member(bits) == (if bits % 0x1_0000 < 0x8000 {
            (bits % 0x1_0000) as int
        } else {
            bits % 0x1_0000 - 0x1_0000
        }),
        spec_i32_member(bits) == (if bits % 0x1_0000_0000 < 0x8000_0000 {
            (bits % 0x1_0000_0000) as int
        } else {
            bits % 0x1_0000_0000 - 0x1_0000_0000
        }),
        spec_i64_member(bits) == (if bits < 0x8000_0000_0000_0000 {
            bits as int
        } else {
            bits - 0x1_0000_0000_0000_0000
        }),
{
    assert((bits as u8) as u64 == bits % 0x100) by (bit_vector);
    assert((bits as u16) as u64 == bits % 0x1_0000) by (bit_vector);
    assert((bits as u32) as u64 == bits % 0x1_0000_0000) by (bit_vector);
    assert(bits % 0x100 < 0x80 ==> ((bits as i8) as i32) as i64 == (bits % 0x100) as i64) by (bit_vector);
    assert(bits % 0x100 >= 0x80 ==> ((bits as i8) as i32) as i64 == (bits % 0x100) as i64 - 0x100i64)
        by (bit_vector);
    assert(bits % 0x1_0000 < 0x8000 ==> ((bits as i16) as i32) as i64 == (bits % 0x1_0000) as i64)
        by (bit_vector);
    assert(bits % 0x1_0000 >= 0x8000 ==> ((bits as i16) as i32) as i64 == (bits % 0x1_0000) as i64
        - 0x1_0000i64) by (bit_vector);
    assert(bits % 0x1_0000_0000 < 0x8000_0000 ==> (bits as i32) as i64 == (bits % 0x1_0000_0000) as i64)
        by (bit_vector);
    assert(bits % 0x1_0000_0000 >= 0x8000_0000 ==> (bits as i32) as i64 == (bits % 0x1_0000_0000) as i64
        - 0x1_0000_0000i64) by (bit_vector);
    assert(bits < 0x8000_0000_0000_0000 ==> (bits as i64) as i128 == bits as i128) by (bit_vector);
    assert(bits >= 0x8000_0000_0000_0000 ==> (bits as i64) as i128 == bits as i128
        - 0x1_0000_0000_0000_0000i128) by (bit_vector);
}

/// A narrow member is read from the low-order bytes alone: bytes of the cell
/// beyond its width do not matter.
pub proof fn lemma_member_ignores_high_bytes(bits: u64, other: u64)
    ensures
        bits & 0xff == other & 0xff ==> spec_bool_member(bits) == spec_bool_member(other)
            && spec_i8_member(bits) == spec_i8_member(other) && spec_u8_member(bits)
            == spec_u8_member(other),
        bits & 0xffff == other & 0xffff ==> spec_i16_member(bits) == spec_i16_member(other)
            && spec_u16_member(bits) == spec_u16_member(other),
        bits & 0xffff_ffff == other & 0xffff_ffff ==> spec_i32_member(bits) == spec_i32_member(other)
            && spec_u32_member(bits) == spec_u32_member(other),
{
    assert(bits & 0xff == other & 0xff ==> bits as u8 == other as u8 && bits as i8 == other as i8)
        by (bit_vector);
    assert(bits & 0xffff == other & 0xffff ==> bits as u16 == other as u16 && bits as i16 == other as i16)
        by (bit_vector);
    assert(bits & 0xffff_ffff == other & 0xffff_ffff ==> bits as u32 == other as u32 && bits as i32
        == other as i32) by (bit_vector);
}

} // verus!
