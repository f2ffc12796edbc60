//! The credential gate: a bearer token, compared with the expected one.

use vstd::prelude::*;
use crate::reply::{bad_request, HttpReply, ReplyView, BAD_REQUEST};
use crate::text::{borrowed_view, same_text};

verus! {

/// Why the credential gate turned a request away.
#[derive(Debug, Clone, Copy, PartialEq, Eq, Structural)]
pub enum AuthError {
    /// The request carries no bearer token.
    AuthMissing,
    /// The request's token is not the expected one.
    AuthInvalid,
}

/// The credential gate's decision: a request passes exactly when it
/// carries a token whose characters are those of the expected token, one
/// for one.
pub open spec fn admitted(credentials: Option<Seq<char>>, expected: Seq<char>) -> Result<
    (),
    AuthError,
> {
    match credentials {
        None => Err(AuthError::AuthMissing),
        Some(token) => if token == expected {
            Ok(())
        } else {
            Err(AuthError::AuthInvalid)
        },
    }
}

impl AuthError {
    /// The text that tells the two refusals apart.
    pub open spec fn spec_message(self) -> Seq<char> {
        match self {
            AuthError::AuthMissing => "No Bearer Header"@,
            AuthError::AuthInvalid => "Authentication Error"@,
        }
    }

    /// The answer to a request that the credential gate turned away: both
    /// refusals have the same status.
    pub open spec fn spec_reply(self) -> ReplyView {
        bad_request(self.spec_message())
    }

    /// The status of a refused request.
    pub fn status(&self) -> (status: u16)
        ensures
            status == BAD_REQUEST,
            status == self.spec_reply().status,
    {
        BAD_REQUEST
    }

    /// The refusal in words.
    pub fn message(&self) -> (message: &'static str)
        ensures
            message@ == self.spec_message(),
    {
        match self {
            AuthError::AuthMissing => "No Bearer Header",
            AuthError::AuthInvalid => "Authentication Error",
        }
    }

    /// The answer that the refused request gets.
    pub fn reply(&self) -> (reply: HttpReply)
        ensures
            reply@ == self.spec_reply(),
    {
        HttpReply::bad_request(self.message())
    }
}

/// Checks a request's bearer token against the expected one. The comparison
/// is exact: no trimming, no folding of case.
pub fn validator(credentials: Option<&str>, expected_token: &str) -> (verdict: Result<
    (),
    AuthError,
>)
    ensures
        verdict == admitted(borrowed_view(credentials), expected_token@),
{
    match credentials {
        None => Err(AuthError::AuthMissing),
        Some(token) => if same_text(token, expected_token) {
            Ok(())
        } else {
            Err(AuthError::AuthInvalid)
        },
    }
}

/// The token that requests are held to: the configured one, or the empty
/// token where none is configured.
pub fn expected_token(configured: Option<String>) -> (token: String)
    ensures
        token@ == match configured {
            Some(value) => value@,
            None => Seq::<char>::empty(),
        },
{
    match configured {
        Some(value) => value,
        None => String::new(),
    }
}

} // verus!
