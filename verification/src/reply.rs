//! Answers to HTTP requests.
use vstd::prelude::*;

verus! {

pub const BAD_REQUEST: u16 = 400;

pub const INTERNAL_SERVER_ERROR: u16 = 500;

pub const NOT_IMPLEMENTED: u16 = 501;

pub const SERVICE_UNAVAILABLE: u16 = 503;

/// An answer that is no completion.
#[derive(Debug, PartialEq, Eq)]
pub enum Reply {
    /// A status code without a body.
    Status(u16),
    /// A status code with a text.
    Text { status: u16, text: String },
    /// An internal error with its message, in the form that the server gives such errors.
    InternalError { message: String },
}

impl Reply {
    /// The answer is this text under this status code.
    pub open spec fn is_text(self, status: u16, text: Seq<char>) -> bool {
        self matches Reply::Text { status: s, text: t } && s == status && t@ == text
    }

    /// The answer is an internal error with this message.
    pub open spec fn is_internal_error(self, message: Seq<char>) -> bool {
        self matches Reply::InternalError { message: m } && m@ == message
    }

    pub(crate) fn text(status: u16, text: String) -> (reply: Reply)
        ensures
            reply.is_text(status, text@),
    {
        Reply::Text { status, text }
    }

    pub(crate) fn internal_error(message: String) -> (reply: Reply)
        ensures
            reply.is_internal_error(message@),
    {
        Reply::InternalError { message }
    }
}

} // verus!
