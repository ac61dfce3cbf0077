//! The request cycle of the worker: what is asked, how a request and its
//! reply are framed as lines, and what becomes of the worker afterwards.

use vstd::prelude::*;
use crate::text::{trim, trimmed};
use crate::tokens::{
    fallback_furigana, fallback_segment_model, fallback_token_models, fallback_tokens, segment_models,
    token_models, FuriganaSegment, Token,
};

verus! {

/// An operation of the worker.
#[derive(Copy, Clone, Debug, PartialEq, Eq, Structural)]
pub enum WorkerOp {
    Health,
    Tokenize,
    GetFurigana,
}

impl WorkerOp {
    /// The name of the operation on the wire.
    pub open spec fn label(self) -> Seq<char> {
        match self {
            WorkerOp::Health => "health"@,
            WorkerOp::Tokenize => "tokenize"@,
            WorkerOp::GetFurigana => "get_furigana"@,
        }
    }

    /// Returns the wire name of the operation.
    pub fn name(self) -> (r: &'static str)
        ensures
            r@ == self.label(),
    {
        match self {
            WorkerOp::Health => "health",
            WorkerOp::Tokenize => "tokenize",
            WorkerOp::GetFurigana => "get_furigana",
        }
    }
}

/// A request to the worker: the operation and, but for the health check, the
/// text it applies to.
#[derive(Clone, Debug, PartialEq, Eq)]
pub struct WorkerRequest {
    pub op: WorkerOp,
    pub text: Option<String>,
}

/// Returns the health check.
pub fn health_request() -> (r: WorkerRequest)
    ensures
        r.op == WorkerOp::Health,
        r.text is None,
{
    WorkerRequest { op: WorkerOp::Health, text: None }
}

/// Returns the request to tokenise a text.
pub fn tokenize_request(text: &str) -> (r: WorkerRequest)
    ensures
        r.op == WorkerOp::Tokenize,
        r.text matches Some(t) && t@ == text@,
{
    WorkerRequest { op: WorkerOp::Tokenize, text: Some(String::from_str(text)) }
}

/// Returns the request to annotate a text with readings.
pub fn furigana_request(text: &str) -> (r: WorkerRequest)
    ensures
        r.op == WorkerOp::GetFurigana,
        r.text matches Some(t) && t@ == text@,
{
    WorkerRequest { op: WorkerOp::GetFurigana, text: Some(String::from_str(text)) }
}

/// The error of a worker that closed its output.
pub open spec fn closed_message() -> Seq<char> {
    "mecab bridge closed stdout"@
}

/// The error of a request that was not answered in time.
pub open spec fn timeout_message() -> Seq<char> {
    "mecab bridge request timed out"@
}

/// Frames an encoded request as one line: the encoding, then a newline.
pub fn frame_line(encoded: &str) -> (r: String)
    ensures
        r@ == encoded@ + "\n"@,
{
    let mut line = String::from_str(encoded);
    line.append("\n");
    line
}

/// Takes the reply out of a line read from the worker. `read` is the number
/// of bytes that the read returned: none means that the worker closed its
/// output, which is an error. Otherwise the reply is the line without the
/// white space around it.
pub fn unframe_line(line: &str, read: usize) -> (r: Result<&str, String>)
    ensures
        read == 0 ==> (r matches Err(e) && e@ == closed_message()),
        read != 0 ==> (r matches Ok(payload) && payload@ == trimmed(line@)),
{
    if read == 0 {
        Err(String::from_str("mecab bridge closed stdout"))
    } else {
        Ok(trim(line))
    }
}

/// Whether a worker is at hand.
#[derive(Copy, Clone, Debug, PartialEq, Eq, Structural)]
pub enum BridgeStatus {
    /// No worker: none was started yet, or the last one failed.
    NoWorker,
    /// A worker that answered its health check is at hand.
    Healthy,
}

/// How a request ended.
#[derive(Clone, Debug, PartialEq, Eq)]
pub enum RequestOutcome<T> {
    /// There was no worker and none could be started; the text is the error
    /// of the search.
    Unavailable(String),
    /// The worker replied.
    Replied(T),
    /// Writing, reading or decoding failed; the text says why.
    Failed(String),
    /// The worker did not reply in time.
    TimedOut,
}

/// What follows from the end of a request.
#[derive(Debug, PartialEq, Eq)]
pub struct Settlement<T> {
    /// Whether a worker is at hand for the next request.
    pub status: BridgeStatus,
    /// Whether the worker that served this request is to be killed.
    pub kill_worker: bool,
    /// What the caller of the request gets.
    pub result: Result<T, String>,
}

/// Whether a worker is at hand after a request that ended the given way.
pub open spec fn status_after<T>(outcome: RequestOutcome<T>) -> BridgeStatus {
    match outcome {
        RequestOutcome::Replied(_) => BridgeStatus::Healthy,
        _ => BridgeStatus::NoWorker,
    }
}

/// Whether a request has to start with the search for a worker.
pub open spec fn spawn_needed(status: BridgeStatus) -> bool {
    status == BridgeStatus::NoWorker
}

/// Tells whether a request has to start with the search for a worker, which
/// is the case exactly when none is at hand.
pub fn needs_spawn(status: BridgeStatus) -> (r: bool)
    ensures
        r == spawn_needed(status),
{
    match status {
        BridgeStatus::NoWorker => true,
        BridgeStatus::Healthy => false,
    }
}

/// Settles a request. A reply keeps the worker and is handed on. A failure
/// or a timeout kills the worker and leaves none, and the caller gets the
/// error. Without a worker there is nothing to kill.
pub fn settle<T>(outcome: RequestOutcome<T>) -> (r: Settlement<T>)
    ensures
        r.status == status_after(outcome),
        r.kill_worker == (outcome is Failed || outcome is TimedOut),
        match outcome {
            RequestOutcome::Unavailable(e) => r.result == Err::<T, String>(e),
            RequestOutcome::Replied(v) => r.result == Ok::<T, String>(v),
            RequestOutcome::Failed(e) => r.result == Err::<T, String>(e),
            RequestOutcome::TimedOut => r.result matches Err(e) && e@ == timeout_message(),
        },
{
    match outcome {
        RequestOutcome::Unavailable(e) => Settlement {
            status: BridgeStatus::NoWorker,
            kill_worker: false,
            result: Err(e),
        },
        RequestOutcome::Replied(v) => Settlement {
            status: BridgeStatus::Healthy,
            kill_worker: false,
            result: Ok(v),
        },
        RequestOutcome::Failed(e) => Settlement {
            status: BridgeStatus::NoWorker,
            kill_worker: true,
            result: Err(e),
        },
        RequestOutcome::TimedOut => Settlement {
            status: BridgeStatus::NoWorker,
            kill_worker: true,
            result: Err(String::from_str("mecab bridge request timed out")),
        },
    }
}

/// What a well-formed reply of the worker holds, as far as it is read: the
/// availability flag, if the reply has one that is a truth value, and the
/// payload, if the reply has one that is a list.
#[derive(Clone, Debug, PartialEq, Eq)]
pub struct WorkerReply<T> {
    pub available: Option<bool>,
    pub items: Option<Vec<T>>,
}

/// The availability that a reply reports: its flag, or unavailable if the
/// reply has none.
pub open spec fn reported_availability(flag: Option<bool>) -> bool {
    match flag {
        Some(b) => b,
        None => false,
    }
}

/// Returns the availability that a reply reports.
pub fn availability(flag: Option<bool>) -> (r: bool)
    ensures
        r == reported_availability(flag),
{
    match flag {
        Some(b) => b,
        None => false,
    }
}

/// Turns the result of a tokenise request into tokens and availability. A
/// reply gives its own flag, and its own tokens if it has any, else the
/// fallback tokens of the text. An error gives the fallback tokens and
/// reports the worker as unavailable.
pub fn tokens_from_response(response: Result<WorkerReply<Token>, String>, text: &str) -> (r: (Vec<Token>, bool))
    ensures
        r.1 == (match response {
            Ok(reply) => reported_availability(reply.available),
            Err(_) => false,
        }),
        match response {
            Ok(WorkerReply { items: Some(items), .. }) => r.0 == items,
            _ => token_models(r.0@) == fallback_token_models(text@, text@.len()),
        },
{
    match response {
        Ok(reply) => {
            let available = availability(reply.available);
            match reply.items {
                Some(items) => (items, available),
                None => (fallback_tokens(text), available),
            }
        },
        Err(_) => (fallback_tokens(text), false),
    }
}

/// Turns the result of a furigana request into segments and availability. A
/// reply gives its own flag, and its own segments if it has any, else the
/// fallback segment of the text. An error gives the fallback segment and
/// reports the worker as unavailable.
pub fn furigana_from_response(response: Result<WorkerReply<FuriganaSegment>, String>, text: &str) -> (r: (
    Vec<FuriganaSegment>,
    bool,
))
    ensures
        r.1 == (match response {
            Ok(reply) => reported_availability(reply.available),
            Err(_) => false,
        }),
        match response {
            Ok(WorkerReply { items: Some(items), .. }) => r.0 == items,
            _ => segment_models(r.0@) == seq![fallback_segment_model(text@)],
        },
{
    match response {
        Ok(reply) => {
            let available = availability(reply.available);
            match reply.items {
                Some(items) => (items, available),
                None => (fallback_furigana(text), available),
            }
        },
        Err(_) => (fallback_furigana(text), false),
    }
}

/// After a timeout no worker is at hand, so the next request starts with the
/// search for one.
pub proof fn lemma_timeout_forces_respawn<T>()
    ensures
        spawn_needed(status_after(RequestOutcome::<T>::TimedOut)),
{
}

/// The next request starts with the search for a worker exactly if this one
/// did not end with a reply.
pub proof fn lemma_respawn_unless_replied<T>(outcome: RequestOutcome<T>)
    ensures
        spawn_needed(status_after(outcome)) <==> !(outcome is Replied),
{
}

} // verus!
