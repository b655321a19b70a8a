//! The durable store, seen from the queue: where a message's payload lives
//! and how a store operation can fail.
//!
//! A payload is one file per message, named by the message id, directly
//! under the store directory, holding the payload and nothing else. The
//! queue never opens a file. It names the path, the caller does the
//! operation and reports the outcome as a `Result` over [`StoreError`].

use vstd::prelude::*;
use vstd::string::StringExecFns;

verus! {

/// The kinds of store failure that the queue tells apart.
#[derive(Debug, Clone, Copy, PartialEq, Eq, Structural)]
pub enum StoreErrorKind {
    /// No file exists for the message.
    NotFound,
    /// Any other failure.
    Other,
}

/// Why a store operation failed, as the caller reports it.
#[derive(Debug, Clone, PartialEq, Eq)]
pub struct StoreError {
    pub kind: StoreErrorKind,
    /// The store's own description of the failure.
    pub message: String,
}

/// Why a queue operation failed: the store operation that went wrong, and how.
#[derive(Debug, Clone, PartialEq, Eq)]
pub enum QueueError {
    /// The payload could not be written; nothing was enqueued.
    StoreWrite(StoreError),
    /// The payload of a message already taken off the index could not be read.
    StoreRead(StoreError),
    /// The file of a message already taken off the index could not be deleted.
    StoreDelete(StoreError),
}

impl QueueError {
    /// The store failure behind this error.
    pub open spec fn cause(self) -> StoreError {
        match self {
            QueueError::StoreWrite(e) => e,
            QueueError::StoreRead(e) => e,
            QueueError::StoreDelete(e) => e,
        }
    }

    /// The store's description of the failure behind this error.
    pub fn message(&self) -> (text: String)
        ensures
            text@ == self.cause().message@,
    {
        match self {
            QueueError::StoreWrite(e) => e.message.clone(),
            QueueError::StoreRead(e) => e.message.clone(),
            QueueError::StoreDelete(e) => e.message.clone(),
        }
    }

    /// Whether the failure behind this error is a missing file.
    pub fn is_not_found(&self) -> (missing: bool)
        ensures
            missing == (self.cause().kind == StoreErrorKind::NotFound),
    {
        match self {
            QueueError::StoreWrite(e) => e.kind == StoreErrorKind::NotFound,
            QueueError::StoreRead(e) => e.kind == StoreErrorKind::NotFound,
            QueueError::StoreDelete(e) => e.kind == StoreErrorKind::NotFound,
        }
    }
}

/// The path of the payload file of message `id` under directory `dir`:
/// `dir`, a slash, `id`, and the extension `.data`.
pub open spec fn message_file_path(dir: Seq<char>, id: Seq<char>) -> Seq<char> {
    dir + seq!['/'] + id + seq!['.', 'd', 'a', 't', 'a']
}

/// Builds the path of the payload file of message `id` under `dir`.
pub fn build_file_path(dir: &str, id: &str) -> (path: String)
    ensures
        path@ == message_file_path(dir@, id@),
{
    proof {
        reveal_strlit("/");
        reveal_strlit(".data");
    }
    let mut path = String::from_str(dir);
    path.append("/");
    path.append(id);
    path.append(".data");
    assert("/"@ =~= seq!['/']);
    assert(".data"@ =~= seq!['.', 'd', 'a', 't', 'a']);
    path
}

} // verus!
