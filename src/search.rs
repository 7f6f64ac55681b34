//! The upstream search API: the request it is sent and the checks on what it
//! sends back.
use vstd::prelude::*;
use crate::errors::AppError;
use crate::num::{i32_value, parse_i32};
use crate::text::{decimal_text, push_decimal, push_text};

verus! {

/// One result of a search.
pub struct SearchResultItem {
    pub title: String,
    pub link: String,
    pub snippet: String,
}

/// The metadata of a search.
pub struct SearchInformationSection {
    /// The search time, as the number's text in the upstream body.
    pub search_time: String,
    /// The total result count, which upstream sends as a string.
    pub total_results: String,
}

/// The upstream response body, which is relayed to the caller as it came.
pub struct SearchResult {
    pub search_information: SearchInformationSection,
    pub items: Vec<SearchResultItem>,
}

/// Whether an upstream HTTP status counts as success.
pub open spec fn is_success(status: u16) -> bool {
    200 <= status && status <= 299
}

/// What one search request ends in, given the upstream status and the body as
/// parsed into the expected shape (or the parser's description of why not).
pub open spec fn outcome_class(status: u16, parsed: Result<SearchResult, String>) -> u16 {
    if !is_success(status) {
        502
    } else {
        match parsed {
            Err(_) => 502,
            Ok(p) => if i32_value(p.search_information.total_results@) is Some {
                200
            } else {
                500
            },
        }
    }
}

/// The detail of a status failure: the status in decimal after a fixed prefix.
pub open spec fn status_detail(status: u16) -> Seq<char> {
    "upstream answered with HTTP status "@ + decimal_text(status as nat)
}

/// The detail of a total-results field that is not an integer.
pub open spec fn total_detail(total: Seq<char>) -> Seq<char> {
    "total results is not an integer: "@ + total
}

impl SearchInformationSection {
    /// The total result count as an integer.
    pub fn total_results_as_i32(&self) -> (r: Result<i32, AppError>)
        ensures
            match i32_value(self.total_results@) {
                Some(v) => r == Ok::<i32, AppError>(v),
                None => r matches Err(AppError::OtherError(d)) && d@ == total_detail(
                    self.total_results@,
                ),
            },
    {
        match parse_i32(self.total_results.as_str()) {
            Some(v) => Ok(v),
            None => {
                let mut d = String::new();
                push_text(&mut d, "total results is not an integer: ");
                push_text(&mut d, self.total_results.as_str());
                assert(Seq::<char>::empty() + "total results is not an integer: "@
                    =~= "total results is not an integer: "@);
                Err(AppError::OtherError(d))
            },
        }
    }
}

/// The fixed endpoint of the upstream API.
pub fn api_base_url() -> (r: &'static str)
    ensures
        r@ == "https://customsearch.googleapis.com/customsearch/v1"@,
{
    "https://customsearch.googleapis.com/customsearch/v1"
}

/// A client of the upstream search API, scoped to one engine and key.
pub struct Client {
    pub engine_id: String,
    pub api_key: String,
}

impl Client {
    pub fn new(engine_id: &str, api_key: &str) -> (r: Client)
        ensures
            r.engine_id@ == engine_id@,
            r.api_key@ == api_key@,
    {
        Client { engine_id: engine_id.to_owned(), api_key: api_key.to_owned() }
    }

    /// The query parameters of a search for `keyword`: engine id, key and
    /// keyword, in that order, left for the HTTP client to encode.
    pub fn query(&self, keyword: &str) -> (r: Vec<(String, String)>)
        ensures
            r@.len() == 3,
            r@[0].0@ == "cx"@ && r@[0].1@ == self.engine_id@,
            r@[1].0@ == "key"@ && r@[1].1@ == self.api_key@,
            r@[2].0@ == "q"@ && r@[2].1@ == keyword@,
    {
        let mut v: Vec<(String, String)> = Vec::new();
        v.push(("cx".to_owned(), self.engine_id.clone()));
        v.push(("key".to_owned(), self.api_key.clone()));
        v.push(("q".to_owned(), keyword.to_owned()));
        v
    }

    /// Fails with a transport failure where the upstream status is not a success.
    pub fn check_status(status: u16) -> (r: Result<(), AppError>)
        ensures
            r is Ok <==> is_success(status),
            !is_success(status) ==> (r matches Err(AppError::HttpClientError(d)) && d@
                == status_detail(status)),
    {
        if 200 <= status && status <= 299 {
            Ok(())
        } else {
            let mut d = String::new();
            push_text(&mut d, "upstream answered with HTTP status ");
            push_decimal(&mut d, status as u64);
            assert(Seq::<char>::empty() + "upstream answered with HTTP status "@
                =~= "upstream answered with HTTP status "@);
            Err(AppError::HttpClientError(d))
        }
    }

    /// Accepts a body parsed into the expected shape whose total-results field
    /// is an integer. A body that did not parse is a transport failure; a total
    /// that is not an integer is an other failure.
    pub fn accept_body(parsed: Result<SearchResult, String>) -> (r: Result<SearchResult, AppError>)
        ensures
            match parsed {
                Err(e) => r matches Err(AppError::HttpClientError(d)) && d@ == e@,
                Ok(p) => match i32_value(p.search_information.total_results@) {
                    Some(_) => r == Ok::<SearchResult, AppError>(p),
                    None => r matches Err(AppError::OtherError(d)) && d@ == total_detail(
                        p.search_information.total_results@,
                    ),
                },
            },
    {
        match parsed {
            Err(e) => Err(AppError::HttpClientError(e)),
            Ok(p) => match p.search_information.total_results_as_i32() {
                Ok(_) => Ok(p),
                Err(e) => Err(e),
            },
        }
    }

    /// The result of one search, from the upstream status and the body as
    /// parsed. The status is checked first; the body is looked at only after a
    /// success status.
    pub fn outcome(status: u16, parsed: Result<SearchResult, String>) -> (r: Result<
        SearchResult,
        AppError,
    >)
        ensures
            !is_success(status) ==> (r matches Err(AppError::HttpClientError(d)) && d@
                == status_detail(status)),
            is_success(status) ==> match parsed {
                Err(e) => r matches Err(AppError::HttpClientError(d)) && d@ == e@,
                Ok(p) => match i32_value(p.search_information.total_results@) {
                    Some(_) => r == Ok::<SearchResult, AppError>(p),
                    None => r matches Err(AppError::OtherError(d)) && d@ == total_detail(
                        p.search_information.total_results@,
                    ),
                },
            },
    {
        match Self::check_status(status) {
            Err(e) => Err(e),
            Ok(()) => Self::accept_body(parsed),
        }
    }
}

} // verus!
