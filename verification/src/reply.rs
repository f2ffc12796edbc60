//! The answer that a request gets: a status and a short plain-text body.

use vstd::prelude::*;
use vstd::string::StringExecFns;

verus! {

/// The status of an answer that carries the requested text.
pub const OK: u16 = 200;

/// The status of a request that was turned away: no credentials, wrong
/// credentials, or a body that holds nothing to ask.
pub const BAD_REQUEST: u16 = 400;

/// The status of a request whose outbound call failed.
pub const INTERNAL_SERVER_ERROR: u16 = 500;

/// An answer to an inbound request.
#[derive(Debug, Clone, PartialEq, Eq)]
pub struct HttpReply {
    pub status: u16,
    pub body: String,
}

/// What an answer is, with its body as characters.
pub struct ReplyView {
    pub status: u16,
    pub body: Seq<char>,
}

impl View for HttpReply {
    type V = ReplyView;

    open spec fn view(&self) -> ReplyView {
        ReplyView { status: self.status, body: self.body@ }
    }
}

/// The answer 200 with `body`.
pub open spec fn ok(body: Seq<char>) -> ReplyView {
    ReplyView { status: OK, body }
}

/// The answer 400 with `body`.
pub open spec fn bad_request(body: Seq<char>) -> ReplyView {
    ReplyView { status: BAD_REQUEST, body }
}

/// The answer 500 with `body`.
pub open spec fn internal_server_error(body: Seq<char>) -> ReplyView {
    ReplyView { status: INTERNAL_SERVER_ERROR, body }
}

impl HttpReply {
    /// Answers 200 with `body`, unchanged.
    pub fn ok(body: String) -> (reply: HttpReply)
        ensures
            reply@ == ok(body@),
    {
        HttpReply { status: OK, body }
    }

    /// Answers 400 with `message`.
    pub fn bad_request(message: &str) -> (reply: HttpReply)
        ensures
            reply@ == bad_request(message@),
    {
        HttpReply { status: BAD_REQUEST, body: String::from_str(message) }
    }

    /// Answers 500 with `message`.
    pub fn internal_server_error(message: &str) -> (reply: HttpReply)
        ensures
            reply@ == internal_server_error(message@),
    {
        HttpReply { status: INTERNAL_SERVER_ERROR, body: String::from_str(message) }
    }
}

} // verus!
