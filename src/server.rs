//! The replies of the gateway: the search route's answer, and the translation
//! of unmatched routes and failures into JSON error replies.
use vstd::prelude::*;
use crate::errors::{message_of, status_of, AppError};
use crate::num::i32_value;
use crate::search::{is_success, outcome_class, Client, SearchResult};

verus! {

pub const STATUS_OK: u16 = 200;

pub const STATUS_NOT_FOUND: u16 = 404;

/// Why a request was not answered by the search route.
pub enum Rejection {
    /// No route matched the request.
    NotFound,
    /// The search route failed with an error of the taxonomy.
    App(AppError),
    /// Any other condition, with its description.
    Unhandled(String),
}

/// What a reply's JSON body holds.
pub enum ReplyBody {
    /// The upstream result, serialized as it came.
    Search(SearchResult),
    /// `{"message": ...}`.
    Message(String),
}

/// A status and a JSON body.
pub struct Reply {
    pub status: u16,
    pub body: ReplyBody,
}

pub open spec fn is_message(b: ReplyBody, m: Seq<char>) -> bool {
    b matches ReplyBody::Message(s) && s@ == m
}

/// Unmatched routes get 404 and `Not Found`; an error of the taxonomy gets its
/// status and diagnostic text; anything else gets 500 and its description.
pub fn handle_rejection(rejection: Rejection) -> (r: Reply)
    ensures
        match rejection {
            Rejection::NotFound => r.status == STATUS_NOT_FOUND && is_message(r.body, "Not Found"@),
            Rejection::App(e) => r.status == status_of(e) && is_message(r.body, message_of(e)),
            Rejection::Unhandled(d) => r.status == 500 && is_message(r.body, d@),
        },
{
    match rejection {
        Rejection::NotFound => Reply {
            status: STATUS_NOT_FOUND,
            body: ReplyBody::Message("Not Found".to_owned()),
        },
        Rejection::App(e) => Reply { status: e.status_code(), body: ReplyBody::Message(e.message()) },
        Rejection::Unhandled(d) => Reply { status: 500, body: ReplyBody::Message(d) },
    }
}

/// The reply of the search route: 200 with the result unchanged, or the error's
/// reply.
pub fn search_reply(outcome: Result<SearchResult, AppError>) -> (r: Reply)
    ensures
        match outcome {
            Ok(p) => r.status == STATUS_OK && r.body == ReplyBody::Search(p),
            Err(e) => r.status == status_of(e) && is_message(r.body, message_of(e)),
        },
{
    match outcome {
        Ok(p) => Reply { status: STATUS_OK, body: ReplyBody::Search(p) },
        Err(e) => handle_rejection(Rejection::App(e)),
    }
}

/// The reply to `GET /q/{keyword}`, from what upstream answered: its status
/// and its body as parsed into the expected shape.
///
/// A success status with a well-formed body whose total is an integer is
/// relayed with 200 and the body unchanged. A status outside 2xx, or a body
/// that does not parse, is answered with 502 and a message. A total that is not
/// an integer is answered with 500, though the call itself succeeded.
pub fn gateway_reply(status: u16, parsed: Result<SearchResult, String>) -> (r: Reply)
    ensures
        r.status == outcome_class(status, parsed),
        r.status == STATUS_OK <==> (r.body matches ReplyBody::Search(p) && parsed == Ok::<
            SearchResult,
            String,
        >(p)),
        r.status != STATUS_OK ==> r.body is Message,
        is_success(status) && (parsed matches Ok(p) && i32_value(
            p.search_information.total_results@,
        ) is Some) ==> r.status == STATUS_OK && r.body == ReplyBody::Search(parsed->Ok_0),
        !is_success(status) ==> r.status == 502 && r.body is Message,
        is_success(status) && parsed is Err ==> r.status == 502,
        is_success(status) && (parsed matches Ok(p) && i32_value(
            p.search_information.total_results@,
        ) is None) ==> r.status == 500,
{
    search_reply(Client::outcome(status, parsed))
}

} // verus!
