//! The two kinds of failure a request can end in, and the status each maps to.
use vstd::prelude::*;
use crate::text::push_text;

verus! {

/// A failure while serving one request.
#[derive(Debug)]
pub enum AppError {
    /// Performing the upstream call, reading its body, or a non-success status:
    /// carries the transport's own description.
    HttpClientError(String),
    /// Any other failure, with a free-form diagnostic.
    OtherError(String),
}

pub const STATUS_BAD_GATEWAY: u16 = 502;

pub const STATUS_INTERNAL_SERVER_ERROR: u16 = 500;

/// The HTTP status at the boundary for an error.
pub open spec fn status_of(e: AppError) -> u16 {
    match e {
        AppError::HttpClientError(_) => STATUS_BAD_GATEWAY,
        AppError::OtherError(_) => STATUS_INTERNAL_SERVER_ERROR,
    }
}

/// The diagnostic text of an error: its kind, then its detail in parentheses.
pub open spec fn message_of(e: AppError) -> Seq<char> {
    match e {
        AppError::HttpClientError(d) => "HttpClientError("@ + d@ + ")"@,
        AppError::OtherError(d) => "OtherError("@ + d@ + ")"@,
    }
}

impl AppError {
    /// An error of the "other" kind with the given detail.
    pub fn other(detail: &str) -> (r: AppError)
        ensures
            r matches AppError::OtherError(d) && d@ == detail@,
    {
        AppError::OtherError(detail.to_owned())
    }

    /// The HTTP status that answers this error.
    pub fn status_code(&self) -> (r: u16)
        ensures
            r == status_of(*self),
    {
        match self {
            AppError::HttpClientError(_) => STATUS_BAD_GATEWAY,
            AppError::OtherError(_) => STATUS_INTERNAL_SERVER_ERROR,
        }
    }

    /// The text put in the `message` field of the reply.
    pub fn message(&self) -> (r: String)
        ensures
            r@ == message_of(*self),
    {
        let mut s = String::new();
        match self {
            AppError::HttpClientError(d) => {
                push_text(&mut s, "HttpClientError(");
                push_text(&mut s, d.as_str());
            },
            AppError::OtherError(d) => {
                push_text(&mut s, "OtherError(");
                push_text(&mut s, d.as_str());
            },
        }
        push_text(&mut s, ")");
        proof {
            assert(Seq::<char>::empty() + "HttpClientError("@ =~= "HttpClientError("@);
            assert(Seq::<char>::empty() + "OtherError("@ =~= "OtherError("@);
        }
        s
    }
}

} // verus!
