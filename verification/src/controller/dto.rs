//! The bodies that travel between the HTTP front and its clients, as plain
//! records. A payload is carried as its JSON text.

use crate::message_handler::MessageItem;
use vstd::prelude::*;

verus! {

/// What a producer sends: a payload and the priority to queue it with.
#[derive(Debug, Clone, PartialEq, Eq)]
pub struct EnqueueRequest {
    pub priority: i32,
    pub data: String,
}

/// What a producer gets back: the id of the message that was queued.
#[derive(Debug, Clone, PartialEq, Eq)]
pub struct EnqueueResponse {
    pub message_id: String,
}

/// What a consumer gets: the message served, id and payload.
#[derive(Debug, Clone, PartialEq, Eq)]
pub struct DequeueResponse {
    pub message_id: String,
    pub data: String,
}

impl EnqueueResponse {
    /// The answer to the producer of message `message_id`.
    pub fn new(message_id: String) -> (response: EnqueueResponse)
        ensures
            response.message_id@ == message_id@,
    {
        EnqueueResponse { message_id }
    }
}

impl DequeueResponse {
    /// The answer that delivers `item`.
    pub fn new(item: MessageItem) -> (response: DequeueResponse)
        ensures
            response.message_id@ == item.id@,
            response.data@ == item.data@,
    {
        DequeueResponse { message_id: item.id, data: item.data }
    }
}

} // verus!
