//! The entry points of a foreign caller, over safe types.
//!
//! Each function here decides what one entry point does and which status it
//! returns. A pointer that may be null is an `Option` of a reference, `None`
//! for null. A string or buffer pointer is an `Option` of the bytes it points
//! to. A slot that holds a handle is an `Option<Box<..>>`, `None` for a null
//! handle: it is laid out as the pointer itself, so that emptying the slot
//! writes null into the caller's variable.

use vstd::prelude::*;
use tokio::runtime::Runtime;
use tokio::sync::mpsc::Receiver;
use tokio::task::JoinHandle;
use crate::error::{Error, ErrorExt, StatusCode};
use crate::row::{value_views, Batch, ColumnDecl, RowBuilder, RowBuilderView};
use crate::util::{bytes_view, convert_c_string, spec_convert_c_string};
use crate::value::Value;
use crate::channel::{Delivery, CHANNEL_CAPACITY};
use crate::{Client, ClientState, Ended};

verus! {

/// The status integer of an outcome: 0 for success, else that of the error.
pub open spec fn spec_status_of(outcome: Result<(), Error>) -> i32 {
    match outcome {
        Ok(_) => StatusCode::Success.spec_code(),
        Err(e) => e.status().spec_code(),
    }
}

/// The status integer of an outcome: 0 for success, else that of the error.
pub fn status_of(outcome: &Result<(), Error>) -> (status: i32)
    ensures
        status == spec_status_of(*outcome),
{
    match outcome {
        Ok(_) => StatusCode::Success.code(),
        Err(e) => e.status_code().code(),
    }
}

/// The status of starting a client for these two names, given whether the
/// system grants a runtime: `InvalidPointer` for a null name, `InvalidArgument`
/// for a name that is not UTF-8 (the database name is looked at first),
/// `ServerUnavailable` without a runtime, else `Success`.
pub open spec fn spec_new_client_status(
    database_name: Option<Seq<u8>>,
    endpoint: Option<Seq<u8>>,
    runtime_granted: bool,
) -> i32 {
    if database_name is None || endpoint is None {
        StatusCode::InvalidPointer.spec_code()
    } else if spec_convert_c_string(database_name) is Err {
        StatusCode::InvalidArgument.spec_code()
    } else if spec_convert_c_string(endpoint) is Err {
        StatusCode::InvalidArgument.spec_code()
    } else if runtime_granted {
        StatusCode::Success.spec_code()
    } else {
        StatusCode::ServerUnavailable.spec_code()
    }
}

/// Makes a builder for the table `table_name` and puts its handle into `res`.
///
/// A null pointer to the slot is fine: nothing happens, and the status is
/// `Success`. Otherwise a null name gives `InvalidPointer` and a name that is
/// not UTF-8 `InvalidArgument`; the slot is left alone then.
pub fn _new_row_builder(table_name: Option<&[u8]>, res: Option<&mut Option<Box<RowBuilder>>>) -> (status: i32)
    ensures
        match res {
            None => status == StatusCode::Success.spec_code(),
            Some(slot) => match spec_convert_c_string(bytes_view(table_name)) {
                Ok(name) => status == StatusCode::Success.spec_code() && (*final(slot) matches Some(b)
                    && b@ == RowBuilderView::new(name)),
                Err(e) => status == e.status().spec_code() && *final(slot) == *slot,
            },
        },
{
    match res {
        None => StatusCode::Success.code(),
        Some(slot) => match convert_c_string(table_name) {
            Err(e) => e.status_code().code(),
            Ok(name) => {
                *slot = Some(Box::new(RowBuilder::new(name)));
                StatusCode::Success.code()
            },
        },
    }
}

/// Frees the builder whose handle is in `res` and empties the slot.
///
/// A null pointer to the slot and an empty slot are both fine: nothing
/// happens. The status is always `Success`, and the slot is empty afterwards,
/// so that freeing again does nothing.
pub fn free_row_builder(res: Option<&mut Option<Box<RowBuilder>>>) -> (status: i32)
    ensures
        status == StatusCode::Success.spec_code(),
        res matches Some(slot) ==> *final(slot) is None,
        res matches Some(slot) ==> (*slot is None ==> *final(slot) == *slot),
{
    match res {
        None => {},
        Some(slot) => {
            *slot = None;
        },
    }
    StatusCode::Success.code()
}

/// Declares a column on a builder.
///
/// A null builder or a null name gives `InvalidPointer`; a name that is not
/// UTF-8, or a type or role code that the protocol does not know,
/// `InvalidArgument`. The builder changes only on success.
pub fn _define_column(
    row_builder: Option<&mut RowBuilder>,
    col_name: Option<&[u8]>,
    data_type: i32,
    semantic_type: i32,
) -> (status: i32)
    ensures
        match row_builder {
            None => status == StatusCode::InvalidPointer.spec_code(),
            Some(b) => match spec_convert_c_string(bytes_view(col_name)) {
                Err(e) => status == e.status().spec_code() && *final(b) == *b,
                Ok(name) => final(b)@ == b@.declared(
                    ColumnDecl { name: name, data_type: data_type, semantic_type: semantic_type },
                ) && status == (if RowBuilderView::accepts_column(data_type, semantic_type) {
                    StatusCode::Success.spec_code()
                } else {
                    StatusCode::InvalidArgument.spec_code()
                }),
            },
        },
{
    match row_builder {
        None => StatusCode::InvalidPointer.code(),
        Some(b) => match convert_c_string(col_name) {
            Err(e) => e.status_code().code(),
            Ok(name) => {
                let outcome = b.add_col(name, data_type, semantic_type);
                status_of(&outcome)
            },
        },
    }
}

/// Appends a row to a builder.
///
/// A null builder or a null array gives `InvalidPointer` and changes
/// nothing. Otherwise the status is that of `RowBuilder::add_row`, and so is
/// what becomes of the builder. As there, a row that is going to be accepted
/// needs room for one more in the count of rows.
pub fn add_row(row_builder: Option<&mut RowBuilder>, values: Option<&[Value]>) -> (status: i32)
    requires
        row_builder matches Some(b) ==> (values matches Some(v) ==> (b@.row_outcome(value_views(v@)) is Ok
            ==> b@.rows < usize::MAX)),
    ensures
        match row_builder {
            None => status == StatusCode::InvalidPointer.spec_code(),
            Some(b) => match values {
                None => status == StatusCode::InvalidPointer.spec_code() && *final(b) == *b,
                Some(v) => final(b)@ == b@.after_row(value_views(v@)) && status == spec_status_of(
                    b@.row_outcome(value_views(v@)),
                ),
            },
        },
{
    match row_builder {
        None => StatusCode::InvalidPointer.code(),
        Some(b) => match values {
            None => StatusCode::InvalidPointer.code(),
            Some(v) => {
                let outcome = b.add_row(v);
                status_of(&outcome)
            },
        },
    }
}

/// Starts a client and puts its handle into `res`.
///
/// A null pointer to the slot is fine: nothing happens, and the status is
/// `Success`. Otherwise a null name gives `InvalidPointer`, a name that is
/// not UTF-8 `InvalidArgument`, and a runtime that cannot be started
/// `ServerUnavailable`; the slot is left alone then. The database name is
/// looked at before the endpoint. For `start_worker` see `Client::new`.
/// Starting the runtime panics where the environment variable
/// `TOKIO_WORKER_THREADS` is set to anything but a positive number.
pub fn new_client<F>(
    database_name: Option<&[u8]>,
    endpoint: Option<&[u8]>,
    res: Option<&mut Option<Box<Client>>>,
    start_worker: F,
) -> (status: i32) where F: FnOnce(&Runtime, String, String, Receiver<Batch>) -> JoinHandle<()>
    requires
        forall|runtime: &Runtime, name: String, addr: String, rx: Receiver<Batch>|
            call_requires(start_worker, (runtime, name, addr, rx)),
    ensures
        match res {
            None => status == StatusCode::Success.spec_code(),
            Some(slot) => {
                &&& status == spec_new_client_status(bytes_view(database_name), bytes_view(endpoint), true)
                    || status == spec_new_client_status(
                    bytes_view(database_name),
                    bytes_view(endpoint),
                    false,
                )
                &&& status == StatusCode::Success.spec_code() ==> (*final(slot) matches Some(c) && c@
                    == ClientState::Active && c.capacity() == Some(CHANNEL_CAPACITY as nat))
                &&& status != StatusCode::Success.spec_code() ==> *final(slot) == *slot
            },
        },
{
    match res {
        None => StatusCode::Success.code(),
        Some(slot) => {
            if database_name.is_none() || endpoint.is_none() {
                return StatusCode::InvalidPointer.code();
            }
            let database_name = match convert_c_string(database_name) {
                Err(e) => {
                    return e.status_code().code();
                },
                Ok(name) => name,
            };
            let endpoint = match convert_c_string(endpoint) {
                Err(e) => {
                    return e.status_code().code();
                },
                Ok(name) => name,
            };
            match Client::new(database_name, endpoint, start_worker) {
                Err(e) => e.status_code().code(),
                Ok(client) => {
                    *slot = Some(Box::new(client));
                    StatusCode::Success.code()
                },
            }
        },
    }
}

/// Hands the rows of a builder to a client.
///
/// A null client or a null builder gives `InvalidPointer` and changes
/// nothing. Otherwise the status is that of `Client::write_row`:
/// `IllegalState` where the client is stopped or its background sender has
/// ended, which leaves the builder alone; else `Success`, or `Unknown` where
/// the channel did not take the batch, and the builder is drained.
pub fn write_row(client: Option<&Client>, row: Option<&mut RowBuilder>) -> (status: i32)
    ensures
        match client {
            None => status == StatusCode::InvalidPointer.spec_code() && (row matches Some(b) ==> *final(b)
                == *b),
            Some(c) => match row {
                None => status == StatusCode::InvalidPointer.spec_code(),
                Some(b) => {
                    &&& status == spec_status_of(c@.write_outcome(Delivery::Closed)) || status
                        == spec_status_of(c@.write_outcome(Delivery::Taken)) || status == spec_status_of(
                        c@.write_outcome(Delivery::Refused),
                    )
                    &&& status == StatusCode::IllegalState.spec_code() ==> *final(b) == *b
                    &&& status != StatusCode::IllegalState.spec_code() ==> final(b)@ == b@.drained()
                },
            },
        },
{
    match client {
        None => StatusCode::InvalidPointer.code(),
        Some(c) => match row {
            None => StatusCode::InvalidPointer.code(),
            Some(b) => {
                let outcome = c.write_row(b);
                status_of(&outcome)
            },
        },
    }
}

/// Stops the client whose handle is in `client`, frees it and empties the
/// slot.
///
/// A null pointer to the slot and an empty slot are both fine: nothing
/// happens, and the status is `Success`. For a slot that holds a client the
/// status is that of `Client::stop`: `Success`, or `Unknown` where the
/// background sender did not end by itself. The slot is empty afterwards in
/// every case, so that freeing again does nothing.
pub fn free_client(client: Option<&mut Option<Box<Client>>>) -> (status: i32)
    ensures
        match client {
            None => status == StatusCode::Success.spec_code(),
            Some(slot) => {
                &&& *final(slot) is None
                &&& match *slot {
                    None => status == StatusCode::Success.spec_code(),
                    Some(c) => status == spec_status_of(c@.stop_outcome(Ended::ByItself)) || status
                        == spec_status_of(c@.stop_outcome(Ended::Failed)),
                }
            },
        },
{
    match client {
        None => StatusCode::Success.code(),
        Some(slot) => match slot.take() {
            None => StatusCode::Success.code(),
            Some(mut handle) => {
                let outcome = handle.stop();
                status_of(&outcome)
            },
        },
    }
}

} // verus!
