//! The router's decision logic: validate and build before any socket
//! activity, and fold a transport outcome into the caller-visible response.
//!
//! Each invocation is one linear sequence — validate, build, transmit,
//! return — with no state shared across calls. The transmission itself is
//! outside this crate; the caller runs it between `prepare` and `complete`
//! and hands its outcome back. Callers receive text, never a structured
//! exception: both validation and transport failures come back as one
//! human-readable string.

use vstd::prelude::*;

use crate::builder::{build, command_for, validation_message, validation_message_seq};
use crate::request::ToolRequest;

verus! {

/// A failure while talking to the control socket, for one call only. The
/// two variants separate "could not reach the peer at all" from "the peer
/// was reached but the exchange failed", so a caller can judge whether
/// reconnecting might help. Each carries the underlying description.
pub enum TransportError {
    /// Connecting failed: the peer could not be reached.
    Unreachable(String),
    /// Writing, reading, or decoding failed after the connection stood.
    Exchange(String),
}

/// The caller-visible description of a transport failure.
pub open spec fn transport_message_seq(e: TransportError) -> Seq<char> {
    match e {
        TransportError::Unreachable(d) => "could not reach compositor socket: "@ + d@,
        TransportError::Exchange(d) => "compositor socket exchange failed: "@ + d@,
    }
}

/// Renders a transport failure as the exact caller-visible text.
pub fn transport_message(e: &TransportError) -> (r: String)
    ensures
        r@ == transport_message_seq(*e),
{
    match e {
        TransportError::Unreachable(d) => {
            let mut out = String::from_str("could not reach compositor socket: ");
            out.append(d.as_str());
            out
        },
        TransportError::Exchange(d) => {
            let mut out = String::from_str("compositor socket exchange failed: ");
            out.append(d.as_str());
            out
        },
    }
}

/// The pre-transport half of an invocation: validates the request and
/// builds its command. A validation failure comes back as the caller's
/// error text, and in that case nothing is to be transmitted.
pub fn prepare(req: &ToolRequest) -> (r: Result<String, String>)
    ensures
        command_for(*req) matches Ok(c) ==> (r matches Ok(s) && s@ == c),
        command_for(*req) matches Err(e) ==> (r matches Err(m) && m@ == validation_message_seq(
            e,
        )),
{
    match build(req) {
        Ok(c) => Ok(c),
        Err(e) => Err(validation_message(&e)),
    }
}

/// The post-transport half of an invocation: passes the response text
/// through verbatim and turns a transport failure into the caller's error
/// text.
pub fn complete(outcome: Result<String, TransportError>) -> (r: Result<String, String>)
    ensures
        outcome matches Ok(t) ==> (r matches Ok(u) && u == t),
        outcome matches Err(e) ==> (r matches Err(m) && m@ == transport_message_seq(e)),
{
    match outcome {
        Ok(t) => Ok(t),
        Err(e) => Err(transport_message(&e)),
    }
}

} // verus!
