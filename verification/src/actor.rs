//! Message-passing access to the ticket store.
//!
//! One owning loop (`server`) holds the store and executes commands taken
//! from a bounded mailbox in arrival order, one at a time, so all access to
//! the table is serialized without locks.  Submitting on a full mailbox
//! blocks the submitter, which bounds outstanding work.  Each command
//! carries its own one-shot reply channel.

use vstd::prelude::*;
use std::sync::mpsc::{Receiver, SyncSender};
use crate::data::{Ticket, TicketDraft, TicketId};
use crate::store::TicketStore;

verus! {

/// Declares `std::sync::mpsc::SyncSender`, the sending half of a bounded
/// channel, so it can stand in fields and signatures; its value is opaque.
#[verifier::external_type_specification]
#[verifier::external_body]
#[verifier::reject_recursive_types(T)]
pub struct ExSyncSender<T>(SyncSender<T>);

/// Declares `std::sync::mpsc::Receiver`, the receiving half of a channel,
/// so it can stand in fields and signatures; its value is opaque.
#[verifier::external_type_specification]
#[verifier::external_body]
#[verifier::reject_recursive_types(T)]
pub struct ExReceiver<T>(Receiver<T>);

/// A request to the store's owning loop, with the channel to answer on.
pub enum Command {
    Insert { draft: TicketDraft, response_channel: SyncSender<TicketId> },
    Get { id: TicketId, response_channel: SyncSender<Option<Ticket>> },
}

/// Relies on `std::sync::mpsc::sync_channel`: a connected sender/receiver
/// pair for a bounded queue of the given capacity; a send on a full queue
/// blocks until space frees.
#[verifier::external_body]
fn bounded_channel<T>(capacity: usize) -> (SyncSender<T>, Receiver<T>) {
    std::sync::mpsc::sync_channel(capacity)
}

/// Relies on `SyncSender::send`: delivers the value unless every receiver is
/// gone, in which case the value comes back as the error.  Whether it
/// succeeds depends on the peer, so nothing more is promised.
#[verifier::external_body]
fn send_on<T>(sender: &SyncSender<T>, value: T) -> Result<(), T> {
    match sender.send(value) {
        Ok(()) => Ok(()),
        Err(std::sync::mpsc::SendError(v)) => Err(v),
    }
}

/// Relies on `Receiver::recv`: the next queued value, or `None` once every
/// sender is gone and the queue is drained.  What arrives depends on the
/// peer, so nothing more is promised.
#[verifier::external_body]
fn recv_on<T>(receiver: &Receiver<T>) -> Option<T> {
    match receiver.recv() {
        Ok(v) => Some(v),
        Err(std::sync::mpsc::RecvError) => None,
    }
}

/// Relies on `SyncSender::clone`: another sending handle for the same
/// queue.  Which queue a handle feeds is not modelled, so nothing is
/// promised of the copy.
pub assume_specification<T>[ <SyncSender<T> as Clone>::clone ](
    sender: &SyncSender<T>,
) -> SyncSender<T>;

/// Handle for submitting commands to a running `server` loop.
#[derive(Clone)]
pub struct TicketStoreClient {
    sender: SyncSender<Command>,
}

#[derive(Debug, Clone, PartialEq, Eq, Structural)]
pub enum TicketStoreClientError {
    SendError,
    RecvError,
}

/// Turns a reply into the caller's outcome: the value if one arrived, and
/// the lost-response error exactly when the reply channel closed first.
pub fn reply_outcome<T>(reply: Option<T>) -> (r: Result<T, TicketStoreClientError>)
    ensures
        match reply {
            Some(v) => r == Ok::<T, TicketStoreClientError>(v),
            None => r == Err::<T, TicketStoreClientError>(TicketStoreClientError::RecvError),
        },
{
    match reply {
        Some(v) => Ok(v),
        None => Err(TicketStoreClientError::RecvError),
    }
}

impl TicketStoreClient {
    /// A client submitting on the given command channel.
    pub fn new(sender: SyncSender<Command>) -> TicketStoreClient {
        TicketStoreClient { sender }
    }

    /// Submits an insertion and waits for the assigned id.  Blocks while the
    /// mailbox is full; `SendError` when the owning loop is gone before the
    /// command is queued, `RecvError` when it stops before replying.
    pub fn insert(&self, draft: TicketDraft) -> Result<TicketId, TicketStoreClientError> {
        let pair = bounded_channel(1);
        let response_channel = pair.0;
        let rx = pair.1;
        match send_on(&self.sender, Command::Insert { draft, response_channel }) {
            Err(_) => Err(TicketStoreClientError::SendError),
            Ok(()) => reply_outcome(recv_on(&rx)),
        }
    }

    /// Submits a lookup and waits for the snapshot, `None` when the id is
    /// unknown.  Blocks and fails as `insert` does.
    pub fn get(&self, id: TicketId) -> Result<Option<Ticket>, TicketStoreClientError> {
        let pair = bounded_channel(1);
        let response_channel = pair.0;
        let rx = pair.1;
        match send_on(&self.sender, Command::Get { id, response_channel }) {
            Err(_) => Err(TicketStoreClientError::SendError),
            Ok(()) => reply_outcome(recv_on(&rx)),
        }
    }
}

impl TicketStoreClientError {
    /// The wording of each failure.
    pub fn message(&self) -> (r: String)
        ensures
            match self {
                TicketStoreClientError::SendError => r@ == "Failed to send command!"@,
                TicketStoreClientError::RecvError => r@
                    == "Failed to recv response from client!"@,
            },
    {
        match self {
            TicketStoreClientError::SendError => "Failed to send command!".to_owned(),
            TicketStoreClientError::RecvError => "Failed to recv response from client!".to_owned(),
        }
    }
}

/// Owns a private ticket table and serializes every access to it: commands
/// are executed one at a time in arrival order, each answered on its own
/// reply channel, and the loop returns cleanly once every sender is gone.
/// A caller who abandoned their reply channel is tolerated: the failed reply
/// send is ignored and the loop goes on.
///
/// The loop's termination measure is a budget of `u64::MAX` commands — more
/// than the id space can ever see served — so in practice the loop ends only
/// at normal shutdown, when the senders are gone.
pub fn server(receiver: Receiver<Command>) {
    let mut store = TicketStore::new();
    let mut budget: u64 = u64::MAX;
    while budget > 0
        invariant
            store.wf(),
        decreases budget,
    {
        budget = budget - 1;
        match recv_on(&receiver) {
            Some(Command::Insert { draft, response_channel }) => {
                if store.count() < u64::MAX {
                    let id = store.add_ticket(draft);
                    let _ = send_on(&response_channel, id);
                }
                // With the id space exhausted no fresh id exists; dropping
                // the reply channel surfaces a lost response to the caller.
            },
            Some(Command::Get { id, response_channel }) => {
                let reply = match store.get(id) {
                    Some(t) => Some(t.duplicate()),
                    None => None,
                };
                let _ = send_on(&response_channel, reply);
            },
            None => {
                return ;
            },
        }
    }
}

} // verus!
