//! Failures of the library and the status integers they are reported as.

use vstd::prelude::*;

verus! {

/// Outcome of a call as a foreign caller sees it.
#[derive(Debug, Clone, Copy, PartialEq, Eq, Structural)]
pub enum StatusCode {
    Success,
    Unknown,
    ServerUnavailable,
    InvalidArgument,
    InvalidPointer,
    IllegalState,
}

impl StatusCode {
    /// The integer that stands for this status on the foreign side.
    pub open spec fn spec_code(self) -> i32 {
        match self {
            StatusCode::Success => 0,
            StatusCode::Unknown => 1000,
            StatusCode::ServerUnavailable => 1001,
            StatusCode::InvalidArgument => 1002,
            StatusCode::InvalidPointer => 1003,
            StatusCode::IllegalState => 1004,
        }
    }

    /// The integer that stands for this status on the foreign side.
    #[verifier::when_used_as_spec(spec_code)]
    pub fn code(self) -> (c: i32)
        ensures
            c == self.spec_code(),
    {
        match self {
            StatusCode::Success => 0,
            StatusCode::Unknown => 1000,
            StatusCode::ServerUnavailable => 1001,
            StatusCode::InvalidArgument => 1002,
            StatusCode::InvalidPointer => 1003,
            StatusCode::IllegalState => 1004,
        }
    }

    /// The status that an integer stands for, if any.
    pub open spec fn spec_from_code(c: i32) -> Option<StatusCode> {
        if c == 0 {
            Some(StatusCode::Success)
        } else if c == 1000 {
            Some(StatusCode::Unknown)
        } else if c == 1001 {
            Some(StatusCode::ServerUnavailable)
        } else if c == 1002 {
            Some(StatusCode::InvalidArgument)
        } else if c == 1003 {
            Some(StatusCode::InvalidPointer)
        } else if c == 1004 {
            Some(StatusCode::IllegalState)
        } else {
            None
        }
    }

    /// The status that an integer stands for, if any.
    #[verifier::when_used_as_spec(spec_from_code)]
    pub fn from_code(c: i32) -> (s: Option<StatusCode>)
        ensures
            s == Self::spec_from_code(c),
    {
        if c == 0 {
            Some(StatusCode::Success)
        } else if c == 1000 {
            Some(StatusCode::Unknown)
        } else if c == 1001 {
            Some(StatusCode::ServerUnavailable)
        } else if c == 1002 {
            Some(StatusCode::InvalidArgument)
        } else if c == 1003 {
            Some(StatusCode::InvalidPointer)
        } else if c == 1004 {
            Some(StatusCode::IllegalState)
        } else {
            None
        }
    }

    /// The name of the status, as it is written in logs.
    pub open spec fn spec_name(self) -> Seq<char> {
        match self {
            StatusCode::Success => "Success"@,
            StatusCode::Unknown => "Unknown"@,
            StatusCode::ServerUnavailable => "ServerUnavailable"@,
            StatusCode::InvalidArgument => "InvalidArgument"@,
            StatusCode::InvalidPointer => "InvalidPointer"@,
            StatusCode::IllegalState => "IllegalState"@,
        }
    }

    /// The name of the status, as it is written in logs.
    pub fn name(self) -> (s: String)
        ensures
            s@ == self.spec_name(),
    {
        match self {
            StatusCode::Success => "Success".to_owned(),
            StatusCode::Unknown => "Unknown".to_owned(),
            StatusCode::ServerUnavailable => "ServerUnavailable".to_owned(),
            StatusCode::InvalidArgument => "InvalidArgument".to_owned(),
            StatusCode::InvalidPointer => "InvalidPointer".to_owned(),
            StatusCode::IllegalState => "IllegalState".to_owned(),
        }
    }
}

/// Every status has an integer of its own, and `from_code` reads it back.
pub proof fn lemma_status_code_round_trip(s: StatusCode)
    ensures
        StatusCode::spec_from_code(s.spec_code()) == Some(s),
{
}

/// An integer that stands for a status stands for exactly one.
pub proof fn lemma_status_code_injective(a: StatusCode, b: StatusCode)
    requires
        a.spec_code() == b.spec_code(),
    ensures
        a == b,
{
}

/// What can go wrong inside the library.
#[derive(Debug, PartialEq, Eq)]
pub enum Error {
    /// The connection to the database at `grpc_endpoint` could not be set up.
    CreateStreamInserter { grpc_endpoint: String },
    /// A column's declared type has no value representation the builder can fill.
    UnsupportedDataType { data_type: i32 },
    /// The client was stopped before the call.
    ClientStopped,
    /// The batch could not be handed to the background sender.
    SendRequest,
    /// A row has `value_len` values where the schema declares `schema_len` columns.
    SchemaMismatch { value_len: usize, schema_len: usize },
    /// A pointer that must refer to data was null.
    NullPointer,
    /// A foreign string is not valid UTF-8.
    InvalidCString,
    /// A column declaration names a type or role code that does not exist.
    InvalidColumnDef { name: String, data_type: i32, semantic_type: i32 },
    /// The background sender did not end by itself: it panicked or was cut off.
    WorkerFailed,
}

impl Error {
    /// The status under which each failure is reported.
    pub open spec fn status(&self) -> StatusCode {
        match self {
            Error::CreateStreamInserter { .. } => StatusCode::ServerUnavailable,
            Error::UnsupportedDataType { .. } => StatusCode::InvalidArgument,
            Error::ClientStopped => StatusCode::IllegalState,
            Error::SendRequest => StatusCode::Unknown,
            Error::SchemaMismatch { .. } => StatusCode::InvalidArgument,
            Error::NullPointer => StatusCode::InvalidPointer,
            Error::InvalidCString => StatusCode::InvalidArgument,
            Error::InvalidColumnDef { .. } => StatusCode::InvalidArgument,
            Error::WorkerFailed => StatusCode::Unknown,
        }
    }
}

/// A failure that knows the status it is reported as.
pub trait ErrorExt {
    /// The status this failure is reported as: `Unknown`, unless the type says otherwise.
    fn status_code(&self) -> (code: StatusCode)
        default_ensures
            code == StatusCode::Unknown,
    {
        StatusCode::Unknown
    }
}

impl ErrorExt for Error {
    fn status_code(&self) -> (code: StatusCode)
        ensures
            code == self.status(),
    {
        match self {
            Error::CreateStreamInserter { .. } => StatusCode::ServerUnavailable,
            Error::UnsupportedDataType { .. } => StatusCode::InvalidArgument,
            Error::ClientStopped => StatusCode::IllegalState,
            Error::SendRequest => StatusCode::Unknown,
            Error::SchemaMismatch { .. } => StatusCode::InvalidArgument,
            Error::NullPointer => StatusCode::InvalidPointer,
            Error::InvalidCString => StatusCode::InvalidArgument,
            Error::InvalidColumnDef { .. } => StatusCode::InvalidArgument,
            Error::WorkerFailed => StatusCode::Unknown,
        }
    }
}

/// A failure is never reported as success.
pub proof fn lemma_error_status_is_failure(e: Error)
    ensures
        e.status() != StatusCode::Success,
        e.status().spec_code() != 0,
{
}

} // verus!
