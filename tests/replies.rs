use search_gateway::errors::AppError;
use search_gateway::search::{
    api_base_url, Client, SearchInformationSection, SearchResult, SearchResultItem,
};
use search_gateway::server::{gateway_reply, handle_rejection, search_reply, Rejection, ReplyBody};

fn rust_result(total: &str) -> SearchResult {
    SearchResult {
        search_information: SearchInformationSection {
            search_time: "0.12".to_string(),
            total_results: total.to_string(),
        },
        items: vec![SearchResultItem {
            title: "Rust".to_string(),
            link: "https://rust-lang.org".to_string(),
            snippet: "...".to_string(),
        }],
    }
}

fn message(body: &ReplyBody) -> String {
    match body {
        ReplyBody::Message(m) => m.clone(),
        ReplyBody::Search(_) => panic!("expected a message body"),
    }
}

#[test]
fn successful_search_relays_the_body_unchanged() {
    let r = gateway_reply(200, Ok(rust_result("42")));
    assert_eq!(r.status, 200);
    match r.body {
        ReplyBody::Search(p) => {
            assert_eq!(p.search_information.search_time, "0.12");
            assert_eq!(p.search_information.total_results, "42");
            assert_eq!(p.items.len(), 1);
            assert_eq!(p.items[0].title, "Rust");
            assert_eq!(p.items[0].link, "https://rust-lang.org");
            assert_eq!(p.items[0].snippet, "...");
        }
        ReplyBody::Message(_) => panic!("expected the search body"),
    }
}

#[test]
fn forbidden_upstream_is_bad_gateway() {
    let r = gateway_reply(403, Ok(rust_result("42")));
    assert_eq!(r.status, 502);
    assert_eq!(message(&r.body), "HttpClientError(upstream answered with HTTP status 403)");
}

#[test]
fn every_error_status_is_bad_gateway() {
    for status in [300u16, 400, 404, 429, 500, 503, 599] {
        let r = gateway_reply(status, Err("unread".to_string()));
        assert_eq!(r.status, 502);
        assert!(matches!(r.body, ReplyBody::Message(_)));
    }
}

#[test]
fn malformed_body_is_bad_gateway() {
    let r = gateway_reply(200, Err("missing field `items`".to_string()));
    assert_eq!(r.status, 502);
    assert_eq!(message(&r.body), "HttpClientError(missing field `items`)");
}

#[test]
fn non_integer_total_is_internal_error() {
    let r = gateway_reply(200, Ok(rust_result("many")));
    assert_eq!(r.status, 500);
    assert_eq!(message(&r.body), "OtherError(total results is not an integer: many)");
}

#[test]
fn unmatched_route_is_not_found() {
    let r = handle_rejection(Rejection::NotFound);
    assert_eq!(r.status, 404);
    assert_eq!(message(&r.body), "Not Found");
}

#[test]
fn unhandled_rejection_is_internal_error() {
    let r = handle_rejection(Rejection::Unhandled("MethodNotAllowed".to_string()));
    assert_eq!(r.status, 500);
    assert_eq!(message(&r.body), "MethodNotAllowed");
}

#[test]
fn error_kinds_map_to_statuses() {
    let t = AppError::HttpClientError("timed out".to_string());
    assert_eq!(t.status_code(), 502);
    assert_eq!(t.message(), "HttpClientError(timed out)");
    let o = AppError::other("bad field");
    assert_eq!(o.status_code(), 500);
    assert_eq!(o.message(), "OtherError(bad field)");
    let r = search_reply(Err(o));
    assert_eq!(r.status, 500);
}

#[test]
fn total_results_parse() {
    let ok = rust_result("1234").search_information.total_results_as_i32();
    assert!(matches!(ok, Ok(1234)));
    let bad = rust_result("12.5").search_information.total_results_as_i32();
    match bad {
        Err(AppError::OtherError(d)) => assert_eq!(d, "total results is not an integer: 12.5"),
        _ => panic!("expected an other failure"),
    }
}

#[test]
fn status_check_accepts_only_success() {
    assert!(Client::check_status(200).is_ok());
    assert!(Client::check_status(204).is_ok());
    assert!(Client::check_status(299).is_ok());
    match Client::check_status(500) {
        Err(AppError::HttpClientError(d)) => assert_eq!(d, "upstream answered with HTTP status 500"),
        _ => panic!("expected a transport failure"),
    }
    assert!(Client::check_status(199).is_err());
    assert!(Client::check_status(301).is_err());
}

#[test]
fn query_carries_engine_key_and_keyword() {
    let c = Client::new("engine", "SECRET-REDACTED");
    let q = c.query("rust lang");
    assert_eq!(
        q,
        vec![
            ("cx".to_string(), "engine".to_string()),
            ("key".to_string(), "SECRET-REDACTED".to_string()),
            ("q".to_string(), "rust lang".to_string()),
        ]
    );
    assert_eq!(api_base_url(), "https://customsearch.googleapis.com/customsearch/v1");
}
