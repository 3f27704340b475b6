//! The error that every request handler and store operation answers with.
use vstd::prelude::*;
use crate::text::{decimal, decimal_string};

verus! {

/// A message could not be delivered to, or answered by, an actor.
#[verifier::external_type_specification]
#[verifier::external_body]
pub struct ExMailboxError(actix::MailboxError);

/// An error reported to API clients: an HTTP status code, the status's
/// reason phrase and a message for humans.
#[derive(Debug, PartialEq, Eq)]
pub struct APIError {
    pub code: u16,
    pub error: String,
    pub message: String,
}

/// What an `APIError` says, as plain values.
pub struct APIErrorView {
    pub code: u16,
    pub error: Seq<char>,
    pub message: Seq<char>,
}

impl View for APIError {
    type V = APIErrorView;

    open spec fn view(&self) -> APIErrorView {
        APIErrorView { code: self.code, error: self.error@, message: self.message@ }
    }
}

/// The error with the given parts.
pub open spec fn error_view(code: u16, error: Seq<char>, message: Seq<char>) -> APIErrorView {
    APIErrorView { code, error, message }
}

/// The answer when a message to the quote store went unanswered.
pub open spec fn mailbox_error() -> APIErrorView {
    error_view(
        500,
        "Internal Server Error"@,
        "We ran into a problem, this has been reported and will be looked at."@,
    )
}

/// The status that an error is sent with: its code where that is a valid
/// HTTP status (from 100 to 999), otherwise 500.
pub open spec fn spec_status_code(code: u16) -> u16 {
    if 100 <= code && code < 1000 {
        code
    } else {
        500
    }
}

/// How an error is written for logs: `[HTTP <code> <error>] <message>`.
pub open spec fn error_text(e: APIErrorView) -> Seq<char> {
    "[HTTP "@ + decimal(e.code as nat) + " "@ + e.error + "] "@ + e.message
}

impl APIError {
    /// An error with the given code, reason phrase and message.
    pub fn new(code: u16, error: &str, message: &str) -> (r: Self)
        ensures
            r@ == error_view(code, error@, message@),
    {
        APIError { code, error: error.to_owned(), message: message.to_owned() }
    }

    /// The HTTP status to send: the error's code where it is a valid status,
    /// otherwise 500 (Internal Server Error).
    pub fn status_code(&self) -> (status: u16)
        ensures
            status == spec_status_code(self.code),
    {
        if 100 <= self.code && self.code < 1000 {
            self.code
        } else {
            500
        }
    }

    /// The error written out for logs, as `[HTTP <code> <error>] <message>`.
    pub fn to_string(&self) -> (s: String)
        ensures
            s@ == error_text(self@),
    {
        let mut s = String::new();
        s.append("[HTTP ");
        let code = decimal_string(self.code);
        s.append(code.as_str());
        s.append(" ");
        s.append(self.error.as_str());
        s.append("] ");
        s.append(self.message.as_str());
        proof {
            assert(s@ =~= error_text(self@));
        }
        s
    }

    /// The error answered when a message to an actor could not be delivered
    /// or answered, whatever the reason.
    pub fn from_mailbox_error(_err: actix::MailboxError) -> (r: Self)
        ensures
            r@ == mailbox_error(),
    {
        APIError::new(
            500,
            "Internal Server Error",
            "We ran into a problem, this has been reported and will be looked at.",
        )
    }
}

} // verus!
