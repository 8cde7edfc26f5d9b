//! The channel between the callers and the background sender.
//!
//! The channel is a bounded queue: batches come out in the order they went
//! in, and a caller that finds it full waits until there is room. It is
//! closed from the sending side by dropping the sender, after which the
//! receiver still gets what was waiting, and from the receiving side by
//! dropping the receiver, after which nothing can be sent.

use vstd::prelude::*;
use tokio::sync::mpsc::error::SendError;
use tokio::sync::mpsc::{Receiver, Sender};
use crate::row::Batch;

verus! {

/// `tokio::sync::mpsc::Sender`, the end of a channel that messages go into.
#[verifier::external_type_specification]
#[verifier::external_body]
#[verifier::reject_recursive_types(T)]
pub struct ExSender<T>(Sender<T>);

/// `tokio::sync::mpsc::Receiver`, the end of a channel that messages come out of.
#[verifier::external_type_specification]
#[verifier::external_body]
#[verifier::reject_recursive_types(T)]
pub struct ExReceiver<T>(Receiver<T>);

/// `tokio::sync::mpsc::error::SendError`, a message that a closed channel gave back.
#[verifier::external_type_specification]
#[verifier::external_body]
#[verifier::reject_recursive_types(T)]
pub struct ExSendError<T>(SendError<T>);

/// The number of batches that may wait for the background sender before a
/// caller has to wait.
pub const CHANNEL_CAPACITY: usize = 1024;

/// The number of messages a channel was made to hold.
pub uninterp spec fn sender_capacity(tx: Sender<Batch>) -> nat;

/// Whether a sender and a receiver were made together, as the two ends of
/// one channel.
pub uninterp spec fn ends_of_one_channel(tx: Sender<Batch>, rx: Receiver<Batch>) -> bool;

/// `tokio::sync::mpsc::channel` makes a channel that holds up to `capacity`
/// messages and returns its two ends. It panics for a capacity of zero or
/// above an eighth of `usize::MAX`.
#[verifier::external_body]
pub(crate) fn bounded_channel(capacity: usize) -> (ends: (Sender<Batch>, Receiver<Batch>))
    requires
        0 < capacity <= usize::MAX / 8,
    ensures
        sender_capacity(ends.0) == capacity,
        ends_of_one_channel(ends.0, ends.1),
{
    tokio::sync::mpsc::channel(capacity)
}

/// `Sender::max_capacity` returns the capacity the channel was made with.
#[verifier::external_body]
pub(crate) fn max_capacity(tx: &Sender<Batch>) -> (n: usize)
    ensures
        n == sender_capacity(*tx),
{
    tx.max_capacity()
}

/// `Sender::is_closed` tells whether the receiving end is gone or closed. The
/// answer depends on the task at the other end, so nothing is said of it.
#[verifier::external_body]
pub(crate) fn is_closed(tx: &Sender<Batch>) -> (closed: bool) {
    tx.is_closed()
}

/// `Sender::blocking_send` waits until the channel has room and puts the
/// message into it, or fails once the receiving end is gone. Whether it fails
/// depends on the task at the other end, so nothing is said of the result. It
/// panics when called from inside an asynchronous task.
#[verifier::external_body]
pub(crate) fn blocking_send(tx: &Sender<Batch>, batch: Batch) -> (sent: Result<(), SendError<Batch>>) {
    tx.blocking_send(batch)
}

/// What the channel does with a batch.
#[derive(Debug, Clone, Copy, PartialEq, Eq, Structural)]
pub enum Delivery {
    /// The receiving end was gone before the batch was handed over.
    Closed,
    /// The channel took the batch.
    Taken,
    /// The receiving end went away while the batch was handed over.
    Refused,
}

/// What the channel did with a batch, from the answer of the send.
pub fn delivery_of(sent: &Result<(), SendError<Batch>>) -> (delivery: Delivery)
    ensures
        delivery == (if *sent is Ok {
            Delivery::Taken
        } else {
            Delivery::Refused
        }),
{
    match sent {
        Ok(_) => Delivery::Taken,
        Err(_) => Delivery::Refused,
    }
}

} // verus!
