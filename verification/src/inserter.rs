//! The decisions of the background sender.
//!
//! The sender is one task that takes batches from the channel, one at a time
//! and in the order they were put in, and inserts each into the database. It
//! waits in two places, for the next batch and for the database's answer; what
//! it does after each of them is decided here.

use vstd::prelude::*;
use crate::row::Batch;

verus! {

/// What the sender has just seen.
#[derive(Debug, PartialEq, Eq)]
pub enum WorkerEvent {
    /// The task has started.
    Started,
    /// The channel has handed over a batch.
    Received(Batch),
    /// The channel is closed and empty.
    Closed,
    /// The database has taken the batch.
    Inserted,
    /// The database has refused the batch, or could not be reached.
    InsertFailed,
}

/// What the sender does next.
#[derive(Debug, PartialEq, Eq)]
pub enum WorkerAction {
    /// Wait for the next batch.
    Receive,
    /// Insert this batch into the database.
    Insert(Batch),
    /// End the task, which closes the receiving end of the channel.
    Exit,
}

/// The sender inserts every batch it receives, goes on after a success, and
/// ends at the first failure or when the channel is closed and empty. A batch
/// is never tried twice.
pub open spec fn spec_next_action(event: WorkerEvent) -> WorkerAction {
    match event {
        WorkerEvent::Started => WorkerAction::Receive,
        WorkerEvent::Received(batch) => WorkerAction::Insert(batch),
        WorkerEvent::Closed => WorkerAction::Exit,
        WorkerEvent::Inserted => WorkerAction::Receive,
        WorkerEvent::InsertFailed => WorkerAction::Exit,
    }
}

/// What the sender does after `event`.
pub fn next_action(event: WorkerEvent) -> (action: WorkerAction)
    ensures
        action == spec_next_action(event),
{
    match event {
        WorkerEvent::Started => WorkerAction::Receive,
        WorkerEvent::Received(batch) => WorkerAction::Insert(batch),
        WorkerEvent::Closed => WorkerAction::Exit,
        WorkerEvent::Inserted => WorkerAction::Receive,
        WorkerEvent::InsertFailed => WorkerAction::Exit,
    }
}

/// A batch is inserted only in answer to its own arrival, and then unchanged:
/// the sender neither makes up, nor repeats, nor alters a batch.
pub proof fn lemma_inserts_what_it_receives(event: WorkerEvent, batch: Batch)
    ensures
        spec_next_action(event) == WorkerAction::Insert(batch) <==> event == WorkerEvent::Received(batch),
{
}

} // verus!
