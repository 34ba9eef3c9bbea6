//! The request gateway's half of a read: turning what came back over
//! the reply channel into an HTTP response.
//!
//! A read request travels to the actor with a single-use reply
//! destination; the gateway waits on that destination. Either a value
//! arrives — the snapshot, possibly empty — and the caller gets it
//! with status 200, or the channel closed without one (the actor is
//! gone) and the caller gets a server error with a diagnostic body.
//! An empty snapshot and an unavailable cache are thus distinguishable:
//! the first is 200 with an empty body, the second is 500.

use vstd::prelude::*;
use vstd::string::StringExecFns;

verus! {

/// Success status of a served read.
pub const STATUS_OK: u16 = 200;

/// Status of a read that found no functioning cache behind the channel.
pub const STATUS_INTERNAL_SERVER_ERROR: u16 = 500;

/// What the wait on the reply destination produced: the snapshot text,
/// or nothing because the channel closed without a value.
pub enum ReadOutcome {
    Delivered(String),
    Unavailable,
}

impl View for ReadOutcome {
    type V = Option<Seq<char>>;

    open spec fn view(&self) -> Option<Seq<char>> {
        match self {
            ReadOutcome::Delivered(text) => Some(text@),
            ReadOutcome::Unavailable => None,
        }
    }
}

/// An HTTP response, as status code and body.
pub struct HttpReply {
    pub status: u16,
    pub body: String,
}

/// Maps the outcome of a read to the response its caller receives: a
/// delivered snapshot is served as-is with status 200 — even when it
/// is empty — and only a missing actor becomes a server error.
pub fn gateway_response(outcome: ReadOutcome) -> (r: HttpReply)
    ensures
        r.status == STATUS_OK <==> outcome is Delivered,
        outcome matches ReadOutcome::Delivered(text) ==> r.body@ == text@,
        outcome is Unavailable ==> r.status == STATUS_INTERNAL_SERVER_ERROR && r.body@
            == "channel closed"@,
{
    match outcome {
        ReadOutcome::Delivered(text) => HttpReply { status: STATUS_OK, body: text },
        ReadOutcome::Unavailable => HttpReply {
            status: STATUS_INTERNAL_SERVER_ERROR,
            body: String::from_str("channel closed"),
        },
    }
}

/// The fixed body of the liveness probe, independent of cache state.
pub fn liveness_body() -> (r: &'static str)
    ensures
        r@ == "I'm Alive :D"@,
{
    "I'm Alive :D"
}

} // verus!
