//! Turning foreign strings and buffers into owned values.
//!
//! A foreign pointer is taken as `Option<&[u8]>`: `None` for a null pointer,
//! otherwise the bytes it points to. For a C string these are the bytes before
//! the terminating NUL.

use vstd::prelude::*;
use vstd::string::*;
use vstd::utf8::*;
use crate::error::Error;

verus! {

/// `core::str::Utf8Error`, which tells where bytes stop being UTF-8.
#[verifier::external_type_specification]
#[verifier::external_body]
pub struct ExUtf8Error(core::str::Utf8Error);

/// `core::str::from_utf8` succeeds exactly on well-formed UTF-8 and then
/// returns the same bytes as a string slice.
pub assume_specification[ core::str::from_utf8 ](v: &[u8]) -> (r: Result<&str, core::str::Utf8Error>)
    ensures
        r is Ok <==> valid_utf8(v@),
        r matches Ok(s) ==> s.spec_bytes() =~= v@,
;

/// What `convert_c_string` returns for a pointer that refers to `c_str`.
pub open spec fn spec_convert_c_string(c_str: Option<Seq<u8>>) -> Result<Seq<char>, Error> {
    match c_str {
        None => Err(Error::NullPointer),
        Some(bytes) => if valid_utf8(bytes) {
            Ok(decode_utf8(bytes))
        } else {
            Err(Error::InvalidCString)
        },
    }
}

/// The model of a possibly null pointer to bytes.
pub open spec fn bytes_view(data: Option<&[u8]>) -> Option<Seq<u8>> {
    match data {
        None => None,
        Some(b) => Some(b@),
    }
}

/// Reads a foreign string into an owned `String`.
///
/// Fails with `NullPointer` for a null pointer and with `InvalidCString` when
/// the bytes are not UTF-8.
pub fn convert_c_string(c_str: Option<&[u8]>) -> (r: Result<String, Error>)
    ensures
        match spec_convert_c_string(bytes_view(c_str)) {
            Ok(text) => r matches Ok(s) && s@ == text,
            Err(e) => r == Err::<String, Error>(e),
        },
{
    match c_str {
        None => Err(Error::NullPointer),
        Some(bytes) => match core::str::from_utf8(bytes) {
            Ok(s) => {
                proof {
                    encode_utf8_decode_utf8(s@);
                }
                Ok(s.to_owned())
            },
            Err(_) => Err(Error::InvalidCString),
        },
    }
}

/// What `convert_c_binary` returns for a pointer that refers to `data` and a length `len`.
pub open spec fn spec_convert_c_binary(data: Option<Seq<u8>>, len: nat) -> Result<Seq<u8>, Error> {
    if len == 0 {
        Ok(Seq::empty())
    } else {
        match data {
            None => Err(Error::NullPointer),
            Some(bytes) => Ok(bytes.take(len as int)),
        }
    }
}

/// Copies `len` bytes of a foreign buffer into an owned vector.
///
/// A length of zero gives an empty vector whatever the pointer is; otherwise a
/// null pointer fails with `NullPointer`. The buffer must hold at least `len`
/// bytes.
pub fn convert_c_binary(data: Option<&[u8]>, len: usize) -> (r: Result<Vec<u8>, Error>)
    requires
        data matches Some(bytes) ==> len <= bytes@.len(),
    ensures
        match spec_convert_c_binary(bytes_view(data), len as nat) {
            Ok(bytes) => r matches Ok(v) && v@ == bytes,
            Err(e) => r == Err::<Vec<u8>, Error>(e),
        },
{
    if len == 0 {
        return Ok(Vec::new());
    }
    match data {
        None => Err(Error::NullPointer),
        Some(bytes) => {
            let mut out: Vec<u8> = Vec::new();
            let mut i: usize = 0;
            while i < len
                invariant
                    i <= len <= bytes@.len(),
                    out@ == bytes@.take(i as int),
                decreases len - i,
            {
                out.push(bytes[i]);
                i += 1;
            }
            Ok(out)
        },
    }
}

} // verus!
