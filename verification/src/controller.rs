//! The rules of the HTTP front: which request goes where, how large a body
//! may be, and what each outcome of an enqueue or a dequeue is answered
//! with. The front itself, which owns the sockets and the JSON codec, calls
//! in here for every decision.

pub mod dto;

use crate::store::QueueError;
use vstd::prelude::*;
use vstd::string::StringExecFns;

verus! {

/// The largest request body that is accepted, in bytes: one mebibyte.
pub const MAX_BODY_BYTES: usize = 1_048_576;

/// An answer to a request: the HTTP status and the body text.
#[derive(Debug, Clone, PartialEq, Eq)]
pub struct Reply {
    pub status: u16,
    pub body: String,
}

/// Where a request goes.
#[derive(Debug, Clone, Copy, PartialEq, Eq, Structural)]
pub enum Route {
    Enqueue,
    Dequeue,
    NotFound,
}

/// How an enqueue request ended.
#[derive(Debug, Clone, PartialEq, Eq)]
pub enum EnqueueOutcome {
    /// The body is larger than [`MAX_BODY_BYTES`].
    BodyTooLarge,
    /// The body is not a request.
    BodyUnreadable,
    /// The queue reported a failure.
    PushFailed(QueueError),
    /// The response could not be encoded.
    ResponseUnencodable,
    /// The message is queued; the encoded response is attached.
    Accepted(String),
}

/// How a dequeue request ended.
#[derive(Debug, Clone, PartialEq, Eq)]
pub enum DequeueOutcome {
    /// The queue reported a failure.
    PullFailed,
    /// Nothing is pending.
    Empty,
    /// The stored payload is not JSON.
    DataUnreadable,
    /// The response could not be encoded.
    ResponseUnencodable,
    /// A message is delivered; the encoded response is attached.
    Delivered(String),
}

/// Status 400 with `m` as the body.
pub fn bad_request(m: String) -> (reply: Reply)
    ensures
        reply.status == 400,
        reply.body@ == m@,
{
    Reply { status: 400, body: m }
}

/// Status 500 with `m` as the body.
pub fn internal_server_error(m: String) -> (reply: Reply)
    ensures
        reply.status == 500,
        reply.body@ == m@,
{
    Reply { status: 500, body: m }
}

/// Status 204 with an empty body.
pub fn no_content() -> (reply: Reply)
    ensures
        reply.status == 204,
        reply.body@ == Seq::<char>::empty(),
{
    Reply { status: 204, body: String::new() }
}

/// Status 404 with an empty body.
pub fn not_found() -> (reply: Reply)
    ensures
        reply.status == 404,
        reply.body@ == Seq::<char>::empty(),
{
    Reply { status: 404, body: String::new() }
}

/// Status 200 with `m` as the body.
pub fn ok(m: String) -> (reply: Reply)
    ensures
        reply.status == 200,
        reply.body@ == m@,
{
    Reply { status: 200, body: m }
}

/// Where a request with this method and path goes: `POST /enqueue` to the
/// enqueue handler, `GET /dequeue` to the dequeue handler, and everything
/// else nowhere.
pub open spec fn routed(method: Seq<char>, path: Seq<char>) -> Route {
    if method == "POST"@ && path == "/enqueue"@ {
        Route::Enqueue
    } else if method == "GET"@ && path == "/dequeue"@ {
        Route::Dequeue
    } else {
        Route::NotFound
    }
}

/// Routes a request by its method, in upper case, and its path.
pub fn route(method: &str, path: &str) -> (route: Route)
    ensures
        route == routed(method@, path@),
{
    let method = String::from_str(method);
    let path = String::from_str(path);
    if method == String::from_str("POST") && path == String::from_str("/enqueue") {
        Route::Enqueue
    } else if method == String::from_str("GET") && path == String::from_str("/dequeue") {
        Route::Dequeue
    } else {
        Route::NotFound
    }
}

/// Whether a body of `len` bytes is over the limit.
pub fn body_too_large(len: usize) -> (too_large: bool)
    ensures
        too_large == (len > MAX_BODY_BYTES),
{
    len > MAX_BODY_BYTES
}

/// The status and body that answer each outcome of an enqueue.
pub open spec fn enqueue_answer(outcome: EnqueueOutcome) -> (int, Seq<char>) {
    match outcome {
        EnqueueOutcome::BodyTooLarge => (400, "Data exceeds 1MB limit"@),
        EnqueueOutcome::BodyUnreadable => (400, "error reading request body"@),
        EnqueueOutcome::PushFailed(e) => (500, "Error: "@ + e.cause().message@),
        EnqueueOutcome::ResponseUnencodable => (500, "Error encoding response as json"@),
        EnqueueOutcome::Accepted(body) => (200, body@),
    }
}

/// The status and body that answer each outcome of a dequeue.
pub open spec fn dequeue_answer(outcome: DequeueOutcome) -> (int, Seq<char>) {
    match outcome {
        DequeueOutcome::PullFailed => (500, "Error reading message"@),
        DequeueOutcome::Empty => (204, Seq::<char>::empty()),
        DequeueOutcome::DataUnreadable => (500, "Error destructuring message data"@),
        DequeueOutcome::ResponseUnencodable => (500, "Error encoding response as json"@),
        DequeueOutcome::Delivered(body) => (200, body@),
    }
}

/// Answers an enqueue request.
pub fn enqueue_reply(outcome: EnqueueOutcome) -> (reply: Reply)
    ensures
        reply.status == enqueue_answer(outcome).0,
        reply.body@ == enqueue_answer(outcome).1,
{
    match outcome {
        EnqueueOutcome::BodyTooLarge => bad_request(String::from_str("Data exceeds 1MB limit")),
        EnqueueOutcome::BodyUnreadable => bad_request(
            String::from_str("error reading request body"),
        ),
        EnqueueOutcome::PushFailed(e) => {
            let mut text = String::from_str("Error: ");
            let detail = e.message();
            text.append(detail.as_str());
            internal_server_error(text)
        },
        EnqueueOutcome::ResponseUnencodable => internal_server_error(
            String::from_str("Error encoding response as json"),
        ),
        EnqueueOutcome::Accepted(body) => ok(body),
    }
}

/// Answers a dequeue request.
pub fn dequeue_reply(outcome: DequeueOutcome) -> (reply: Reply)
    ensures
        reply.status == dequeue_answer(outcome).0,
        reply.body@ == dequeue_answer(outcome).1,
{
    match outcome {
        DequeueOutcome::PullFailed => internal_server_error(
            String::from_str("Error reading message"),
        ),
        DequeueOutcome::Empty => no_content(),
        DequeueOutcome::DataUnreadable => internal_server_error(
            String::from_str("Error destructuring message data"),
        ),
        DequeueOutcome::ResponseUnencodable => internal_server_error(
            String::from_str("Error encoding response as json"),
        ),
        DequeueOutcome::Delivered(body) => ok(body),
    }
}

} // verus!
