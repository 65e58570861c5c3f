//! How outcomes are rendered to the caller: the one place where the
//! distinct causes of a failure collapse into what the caller may see.

use vstd::prelude::*;

use crate::pipeline::{WriteError, WriteErrorView, WriteReceipt};
use crate::session::{login_view, AuthError};

verus! {

/// Body of the reply to a login that failed on verifying the stored hash.
pub const VERIFICATION_FAULT: &'static str = "Verification error";

/// Body of the reply to a login for which no token could be issued.
pub const SIGNING_FAULT: &'static str = "Failed to generate token";

/// Body of the reply to a write for which no backend was available.
pub const BACKEND_UNAVAILABLE: &'static str = "Backend unavailable";

/// What precedes the backend client's words in the reply to a write whose
/// point was refused.
pub const INVALID_POINT: &'static str = "Invalid data point: ";

/// What precedes the backend's words in the reply to a write that failed.
pub const WRITE_FAILED: &'static str = "Failed to write to InfluxDB: ";

/// A reply to the caller.
#[derive(Debug, PartialEq, Eq)]
pub enum Reply {
    /// A login succeeded: the token.
    Token(String),
    /// A write succeeded.
    Written,
    /// The caller is not authorized. Nothing says why.
    Unauthorized,
    /// The request was at fault: a short message.
    BadRequest(String),
    /// The service or its backend was at fault: a short message.
    ServerError(String),
}

/// A reply as contracts see it.
pub enum ReplyView {
    Token(Seq<char>),
    Written,
    Unauthorized,
    BadRequest(Seq<char>),
    ServerError(Seq<char>),
}

impl View for Reply {
    type V = ReplyView;

    open spec fn view(&self) -> ReplyView {
        match self {
            Reply::Token(token) => ReplyView::Token(token@),
            Reply::Written => ReplyView::Written,
            Reply::Unauthorized => ReplyView::Unauthorized,
            Reply::BadRequest(message) => ReplyView::BadRequest(message@),
            Reply::ServerError(message) => ReplyView::ServerError(message@),
        }
    }
}

impl ReplyView {
    /// The HTTP status of a reply.
    pub open spec fn status(self) -> u16 {
        match self {
            ReplyView::Token(_) => 200,
            ReplyView::Written => 200,
            ReplyView::Unauthorized => 401,
            ReplyView::BadRequest(_) => 400,
            ReplyView::ServerError(_) => 500,
        }
    }
}

impl Reply {
    /// The HTTP status of the reply.
    pub fn status(&self) -> (r: u16)
        ensures
            r == self@.status(),
    {
        match self {
            Reply::Token(_) => 200,
            Reply::Written => 200,
            Reply::Unauthorized => 401,
            Reply::BadRequest(_) => 400,
            Reply::ServerError(_) => 500,
        }
    }
}

/// The reply that an authentication or login failure is rendered as: the
/// four ways of not being authorized give one reply, the two internal
/// faults a server error each.
pub open spec fn rendered_failure(e: AuthError) -> ReplyView {
    match e {
        AuthError::MissingOrMalformedHeader => ReplyView::Unauthorized,
        AuthError::InvalidCredentials => ReplyView::Unauthorized,
        AuthError::InvalidToken => ReplyView::Unauthorized,
        AuthError::UserNotFound => ReplyView::Unauthorized,
        AuthError::VerificationFault => ReplyView::ServerError(VERIFICATION_FAULT@),
        AuthError::SigningFault => ReplyView::ServerError(SIGNING_FAULT@),
    }
}

/// The reply that the outcome of a login is rendered as.
pub open spec fn rendered_login(outcome: Result<Seq<char>, AuthError>) -> ReplyView {
    match outcome {
        Ok(token) => ReplyView::Token(token),
        Err(e) => rendered_failure(e),
    }
}

/// The reply that the outcome of a write is rendered as.
pub open spec fn rendered_write(outcome: Result<WriteReceipt, WriteErrorView>) -> ReplyView {
    match outcome {
        Ok(_) => ReplyView::Written,
        Err(WriteErrorView::Unauthorized) => ReplyView::Unauthorized,
        Err(WriteErrorView::InvalidPoint(detail)) => ReplyView::BadRequest(INVALID_POINT@ + detail),
        Err(WriteErrorView::BackendUnavailable) => ReplyView::ServerError(BACKEND_UNAVAILABLE@),
        Err(WriteErrorView::BackendRejected(detail)) => ReplyView::ServerError(WRITE_FAILED@ + detail),
    }
}

/// The view of the outcome of a write.
pub open spec fn write_outcome_view(outcome: Result<WriteReceipt, WriteError>) -> Result<
    WriteReceipt,
    WriteErrorView,
> {
    match outcome {
        Ok(receipt) => Ok(receipt),
        Err(e) => Err(e@),
    }
}

/// Renders an authentication or login failure.
pub fn failure_reply(e: AuthError) -> (r: Reply)
    ensures
        r@ == rendered_failure(e),
{
    match e {
        AuthError::MissingOrMalformedHeader => Reply::Unauthorized,
        AuthError::InvalidCredentials => Reply::Unauthorized,
        AuthError::InvalidToken => Reply::Unauthorized,
        AuthError::UserNotFound => Reply::Unauthorized,
        AuthError::VerificationFault => Reply::ServerError(VERIFICATION_FAULT.to_owned()),
        AuthError::SigningFault => Reply::ServerError(SIGNING_FAULT.to_owned()),
    }
}

/// Renders the outcome of a login.
pub fn login_reply(outcome: Result<String, AuthError>) -> (r: Reply)
    ensures
        r@ == rendered_login(login_view(outcome)),
{
    match outcome {
        Ok(token) => Reply::Token(token),
        Err(e) => failure_reply(e),
    }
}

/// Renders the outcome of a write.
pub fn write_reply(outcome: Result<WriteReceipt, WriteError>) -> (r: Reply)
    ensures
        r@ == rendered_write(write_outcome_view(outcome)),
{
    match outcome {
        Ok(_) => Reply::Written,
        Err(WriteError::Unauthorized) => Reply::Unauthorized,
        Err(WriteError::InvalidPoint(detail)) => Reply::BadRequest(
            INVALID_POINT.to_owned().concat(detail.as_str()),
        ),
        Err(WriteError::BackendUnavailable) => Reply::ServerError(BACKEND_UNAVAILABLE.to_owned()),
        Err(WriteError::BackendRejected(detail)) => Reply::ServerError(
            WRITE_FAILED.to_owned().concat(detail.as_str()),
        ),
    }
}

/// Every way of not being authorized is rendered as the same reply, with
/// status 401: the reply does not tell a missing header from a bad token,
/// nor an unknown user from a wrong password.
pub proof fn lemma_unauthorized_is_uniform(e: AuthError)
    requires
        e != AuthError::VerificationFault,
        e != AuthError::SigningFault,
    ensures
        rendered_failure(e) == ReplyView::Unauthorized,
        rendered_failure(e).status() == 401,
{
}

} // verus!
