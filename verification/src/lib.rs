//! Building typed rows for a time-series table and handing them to a
//! background sender, behind status codes fit for a foreign caller.
//!
//! A `RowBuilder` collects rows for one table. A `Client` owns a runtime with
//! one background task and a bounded channel to it; `Client::write_row` drains
//! a builder into a batch and puts the batch into the channel. The module
//! `inserter` decides what the background task does, and the module `ffi`
//! holds the entry points of a foreign caller.

use vstd::prelude::*;
use tokio::runtime::Runtime;
use tokio::sync::mpsc::{Receiver, Sender};
use tokio::task::{JoinError, JoinHandle};
use crate::channel::{
    blocking_send, bounded_channel, delivery_of, ends_of_one_channel, is_closed, max_capacity,
    sender_capacity, Delivery, CHANNEL_CAPACITY,
};
use crate::error::{Error, StatusCode};
use crate::row::{Batch, RowBuilder};

pub mod channel;
pub mod column;
pub mod error;
pub mod ffi;
pub mod inserter;
pub mod logger;
pub mod row;
pub mod schema;
pub mod util;
pub mod value;

verus! {

/// `tokio::runtime::Runtime`, the threads that run the background task.
#[verifier::external_type_specification]
#[verifier::external_body]
pub struct ExRuntime(Runtime);

/// `tokio::task::JoinHandle`, by which the end of a task is waited for.
#[verifier::external_type_specification]
#[verifier::external_body]
#[verifier::reject_recursive_types(T)]
pub struct ExJoinHandle<T>(JoinHandle<T>);

/// `tokio::task::JoinError`, the reason a task did not end by itself.
#[verifier::external_type_specification]
#[verifier::external_body]
pub struct ExJoinError(JoinError);

/// `std::io::Error`, the reason the system refused a runtime.
#[verifier::external_type_specification]
#[verifier::external_body]
pub struct ExIoError(std::io::Error);

/// `Builder::new_multi_thread`, `enable_all`, `thread_name` and `build` start
/// a runtime with worker threads, all of them named `gt-client`, or fail where
/// the system refuses the resources. Nothing is said of the result. The call
/// panics where the environment variable `TOKIO_WORKER_THREADS` is set to
/// anything but a positive number.
#[verifier::external_body]
fn build_runtime() -> (runtime: Result<Runtime, std::io::Error>) {
    tokio::runtime::Builder::new_multi_thread().enable_all().thread_name("gt-client").build()
}

/// `Runtime::block_on` on a task's handle waits until the task has ended and
/// tells whether it ended by itself. It panics when called from inside an
/// asynchronous task.
#[verifier::external_body]
fn join(runtime: &Runtime, handle: JoinHandle<()>) -> (ended: Result<(), JoinError>) {
    runtime.block_on(handle)
}

/// What a running client holds: the end of the channel that batches go into,
/// the background task that takes them out, and the runtime it runs on.
struct Link {
    tx: Sender<Batch>,
    handle: JoinHandle<()>,
    runtime: Runtime,
}

/// A connection to the database that sends batches in the background.
///
/// A client is active from the start until it is stopped, and never becomes
/// active again. Stop a client before it is dropped: dropping an active
/// client shuts its runtime down without waiting for the batches that are
/// still in the channel.
pub struct Client {
    link: Option<Link>,
}

/// Whether a client still takes batches.
#[derive(Debug, Clone, Copy, PartialEq, Eq, Structural)]
pub enum ClientState {
    Active,
    Stopped,
}

/// How the background sender ended.
#[derive(Debug, Clone, Copy, PartialEq, Eq, Structural)]
pub enum Ended {
    /// The task ran to its end.
    ByItself,
    /// The task panicked or was cut off.
    Failed,
}

/// How the background sender ended, from the answer of the join.
pub fn ended_of(joined: &Result<(), JoinError>) -> (ended: Ended)
    ensures
        ended == (if *joined is Ok {
            Ended::ByItself
        } else {
            Ended::Failed
        }),
{
    match joined {
        Ok(_) => Ended::ByItself,
        Err(_) => Ended::Failed,
    }
}

impl ClientState {
    /// The state after the client is stopped.
    pub open spec fn after_stop(self) -> ClientState {
        ClientState::Stopped
    }

    /// What a write returns, given what the channel does with the batch. A
    /// stopped client does not get as far as the channel.
    pub open spec fn spec_write_outcome(self, delivery: Delivery) -> Result<(), Error> {
        match self {
            ClientState::Stopped => Err(Error::ClientStopped),
            ClientState::Active => match delivery {
                Delivery::Closed => Err(Error::ClientStopped),
                Delivery::Taken => Ok(()),
                Delivery::Refused => Err(Error::SendRequest),
            },
        }
    }

    /// What a write returns, given what the channel does with the batch. A
    /// stopped client does not get as far as the channel.
    #[verifier::when_used_as_spec(spec_write_outcome)]
    pub fn write_outcome(self, delivery: Delivery) -> (r: Result<(), Error>)
        ensures
            r == self.spec_write_outcome(delivery),
    {
        match self {
            ClientState::Stopped => Err(Error::ClientStopped),
            ClientState::Active => match delivery {
                Delivery::Closed => Err(Error::ClientStopped),
                Delivery::Taken => Ok(()),
                Delivery::Refused => Err(Error::SendRequest),
            },
        }
    }

    /// What stopping returns, given how the background sender ended. A
    /// stopped client has no background sender to wait for.
    pub open spec fn spec_stop_outcome(self, ended: Ended) -> Result<(), Error> {
        match self {
            ClientState::Stopped => Ok(()),
            ClientState::Active => match ended {
                Ended::ByItself => Ok(()),
                Ended::Failed => Err(Error::WorkerFailed),
            },
        }
    }

    /// What stopping returns, given how the background sender ended. A
    /// stopped client has no background sender to wait for.
    #[verifier::when_used_as_spec(spec_stop_outcome)]
    pub fn stop_outcome(self, ended: Ended) -> (r: Result<(), Error>)
        ensures
            r == self.spec_stop_outcome(ended),
    {
        match self {
            ClientState::Stopped => Ok(()),
            ClientState::Active => match ended {
                Ended::ByItself => Ok(()),
                Ended::Failed => Err(Error::WorkerFailed),
            },
        }
    }

    /// Whether a write takes the rows out of the builder: it does unless the
    /// client is found stopped or the channel closed.
    pub open spec fn drains(self, delivery: Delivery) -> bool {
        self is Active && delivery != Delivery::Closed
    }
}

/// Once a client is stopped it stays stopped: every later write is refused
/// with `ClientStopped`, which is reported as `IllegalState`, whatever the
/// channel would have done, and no builder is drained; stopping again changes
/// nothing.
pub proof fn lemma_stopped_is_absorbing(state: ClientState, delivery: Delivery)
    ensures
        state.after_stop().write_outcome(delivery) == Err::<(), Error>(Error::ClientStopped),
        Error::ClientStopped.status() == StatusCode::IllegalState,
        !state.after_stop().drains(delivery),
        state.after_stop().after_stop() == state.after_stop(),
{
}

/// Stopping fails only where an active client's background sender did not
/// end by itself, and then with `WorkerFailed`, which is reported as
/// `Unknown`. Stopping a stopped client succeeds.
pub proof fn lemma_stop_outcome(state: ClientState, ended: Ended)
    ensures
        state.stop_outcome(ended) is Err <==> state is Active && ended is Failed,
        state.stop_outcome(ended) is Err ==> state.stop_outcome(ended) == Err::<(), Error>(
            Error::WorkerFailed,
        ),
        Error::WorkerFailed.status() == StatusCode::Unknown,
        state.after_stop().stop_outcome(ended) is Ok,
{
}

/// A write that is refused with `ClientStopped` has not drained the builder,
/// and every other write has.
pub proof fn lemma_refused_write_keeps_rows(state: ClientState, delivery: Delivery)
    ensures
        state.drains(delivery) <==> state.write_outcome(delivery) != Err::<(), Error>(
            Error::ClientStopped,
        ),
{
}

impl View for Client {
    type V = ClientState;

    closed spec fn view(&self) -> ClientState {
        if self.link is Some {
            ClientState::Active
        } else {
            ClientState::Stopped
        }
    }
}

impl Client {
    /// The number of batches that may wait for the background sender; `None`
    /// once the client is stopped.
    pub closed spec fn capacity(&self) -> Option<nat> {
        match self.link {
            Some(link) => Some(sender_capacity(link.tx)),
            None => None,
        }
    }

    /// The runtime of an active client.
    pub closed spec fn runtime(&self) -> Runtime {
        self.link->Some_0.runtime
    }

    /// The handle of the background task of an active client.
    pub closed spec fn worker(&self) -> JoinHandle<()> {
        self.link->Some_0.handle
    }

    /// The end of the channel that an active client puts batches into.
    pub closed spec fn sender(&self) -> Sender<Batch> {
        self.link->Some_0.tx
    }

    /// Starts a client for the database `database_name` at `addr`.
    ///
    /// A runtime is started, a channel of `CHANNEL_CAPACITY` batches made, and
    /// `start_worker` called with the runtime, the two names and the channel's
    /// receiving end. It has to spawn on that runtime the task that sends what
    /// it receives, and to return the task's handle. Fails with
    /// `CreateStreamInserter` where the system refuses a runtime. Starting the
    /// runtime panics where the environment variable `TOKIO_WORKER_THREADS`
    /// is set to anything but a positive number.
    pub fn new<F>(database_name: String, addr: String, start_worker: F) -> (r: Result<Client, Error>) where
        F: FnOnce(&Runtime, String, String, Receiver<Batch>) -> JoinHandle<()>,

        requires
            forall|runtime: &Runtime, rx: Receiver<Batch>|
                call_requires(start_worker, (runtime, database_name, addr, rx)),
        ensures
            r matches Ok(client) ==> client@ == ClientState::Active && client.capacity() == Some(
                CHANNEL_CAPACITY as nat,
            ) && exists|rx: Receiver<Batch>|
                {
                    &&& ends_of_one_channel(client.sender(), rx)
                    &&& call_ensures(
                        start_worker,
                        (&client.runtime(), database_name, addr, rx),
                        client.worker(),
                    )
                },
            r matches Err(e) ==> e == (Error::CreateStreamInserter { grpc_endpoint: addr }),
    {
        match build_runtime() {
            Err(_) => Err(Error::CreateStreamInserter { grpc_endpoint: addr }),
            Ok(runtime) => Ok(Client::with_runtime(runtime, database_name, addr, start_worker)),
        }
    }

    /// Starts a client on a runtime that is already there.
    ///
    /// As `new`, but for the runtime; this cannot fail.
    pub fn with_runtime<F>(runtime: Runtime, database_name: String, addr: String, start_worker: F) -> (client:
        Client) where F: FnOnce(&Runtime, String, String, Receiver<Batch>) -> JoinHandle<()>
        requires
            forall|runtime: &Runtime, rx: Receiver<Batch>|
                call_requires(start_worker, (runtime, database_name, addr, rx)),
        ensures
            client@ == ClientState::Active,
            client.capacity() == Some(CHANNEL_CAPACITY as nat),
            client.runtime() == runtime,
            // the background task was started on the receiving end of the
            // channel that the client sends into
            exists|rx: Receiver<Batch>|
                {
                    &&& ends_of_one_channel(client.sender(), rx)
                    &&& call_ensures(start_worker, (&runtime, database_name, addr, rx), client.worker())
                },
    {
        let (tx, rx) = bounded_channel(CHANNEL_CAPACITY);
        let ghost receiving_end = rx;
        let handle = start_worker(&runtime, database_name, addr, rx);
        let client = Client { link: Some(Link { tx, handle, runtime }) };
        assert(ends_of_one_channel(client.sender(), receiving_end) && call_ensures(
            start_worker,
            (&client.runtime(), database_name, addr, receiving_end),
            client.worker(),
        ));
        client
    }

    /// Hands the rows of `row` to the background sender.
    ///
    /// A stopped client refuses with `ClientStopped`, and so does an active
    /// one whose background sender has ended; `row` is left alone then.
    /// Otherwise `row` is drained into a batch and the call waits until the
    /// channel has room for it. It fails with `SendRequest` where the
    /// background sender ends meanwhile; the batch is lost then. Must not be
    /// called from inside an asynchronous task.
    pub fn write_row(&self, row: &mut RowBuilder) -> (r: Result<(), Error>)
        ensures
            exists|delivery: Delivery|
                {
                    &&& r == #[trigger] self@.write_outcome(delivery)
                    &&& self@.drains(delivery) ==> final(row)@ == old(row)@.drained()
                    &&& !self@.drains(delivery) ==> *final(row) == *old(row)
                },
            r == self@.write_outcome(Delivery::Closed) || r == self@.write_outcome(Delivery::Taken) || r
                == self@.write_outcome(Delivery::Refused),
            r == Err::<(), Error>(Error::ClientStopped) ==> *final(row) == *old(row),
            r != Err::<(), Error>(Error::ClientStopped) ==> final(row)@ == old(row)@.drained(),
    {
        match &self.link {
            None => ClientState::Stopped.write_outcome(Delivery::Closed),
            Some(link) => {
                if is_closed(&link.tx) {
                    ClientState::Active.write_outcome(Delivery::Closed)
                } else {
                    let sent = blocking_send(&link.tx, row.drain_into_batch());
                    ClientState::Active.write_outcome(delivery_of(&sent))
                }
            },
        }
    }

    /// Stops the client: closes the channel, waits until the background
    /// sender has sent what was waiting and has ended, and shuts the runtime
    /// down.
    ///
    /// Fails with `WorkerFailed` where the background sender did not end by
    /// itself; the client is stopped all the same. Stopping a stopped client
    /// does nothing and succeeds. Must not be called from inside an
    /// asynchronous task.
    pub fn stop(&mut self) -> (r: Result<(), Error>)
        ensures
            final(self)@ == old(self)@.after_stop(),
            final(self).capacity() is None,
            old(self)@ is Stopped ==> *final(self) == *old(self),
            old(self)@ is Stopped ==> r is Ok,
            r == old(self)@.stop_outcome(Ended::ByItself) || r == old(self)@.stop_outcome(Ended::Failed),
    {
        match self.link.take() {
            None => ClientState::Stopped.stop_outcome(Ended::ByItself),
            Some(link) => {
                let Link { tx, handle, runtime } = link;
                {
                    let _closed = tx;
                }
                let joined = join(&runtime, handle);
                ClientState::Active.stop_outcome(ended_of(&joined))
            },
        }
    }

    /// Whether the client still takes batches.
    pub fn is_active(&self) -> (b: bool)
        ensures
            b == (self@ is Active),
    {
        self.link.is_some()
    }

    /// The number of batches that may wait for the background sender; `None`
    /// once the client is stopped.
    pub fn max_pending(&self) -> (n: Option<usize>)
        ensures
            n is Some <==> self@ is Active,
            n matches Some(c) ==> self.capacity() == Some(c as nat),
    {
        match &self.link {
            None => None,
            Some(link) => Some(max_capacity(&link.tx)),
        }
    }
}

} // verus!
