//! The fetch plan: retries, error surfacing, and page decoding.

use kew::fetch::{
    FetchEvent, FetchStep, RETRY_DELAY_MS, decode_page, fetch_step, request_url, resolve_fetch,
};
use kew::{Error, page_from_fields};

fn response(status: u16, body: &str) -> FetchEvent {
    FetchEvent::Response { status: status, body: body.to_string() }
}

#[test]
fn rate_limited_response_is_retried_after_500ms() {
    let step = fetch_step(response(429, ""));
    assert_eq!(step, FetchStep::Retry { delay_ms: 500 });
    assert_eq!(RETRY_DELAY_MS, 500);
}

#[test]
fn other_responses_go_to_decoding() {
    let step = fetch_step(response(200, "{}"));
    assert_eq!(step, FetchStep::Decode { body: "{}".to_string() });
}

#[test]
fn transport_failure_aborts_unretried() {
    let step = fetch_step(FetchEvent::Failed { message: "connection refused".to_string() });
    assert_eq!(
        step,
        FetchStep::Abort { error: Error::Transport("connection refused".to_string()) }
    );
}

#[test]
fn rate_limited_then_ok_returns_the_ok_payload_after_one_suspension() {
    let outcome = resolve_fetch(vec![
        response(429, ""),
        response(200, "{\"totalResults\": 13, \"cursor\": \"next\", \"results\": []}"),
    ]);
    let (result, retries) = outcome.expect("a deciding outcome exists");
    // one ~500ms suspension preceded the payload
    assert_eq!(retries, 1);
    assert_eq!(RETRY_DELAY_MS, 500);
    let page = result.expect("the payload decodes");
    assert_eq!(page.size(), 13);
    assert_eq!(page.cursor(), "next");
    assert!(page.results().is_empty());
}

#[test]
fn many_rate_limits_are_all_waited_out() {
    let outcome = resolve_fetch(vec![
        response(429, ""),
        response(429, ""),
        response(429, ""),
        response(200, "{\"totalResults\": 1}"),
    ]);
    let (result, retries) = outcome.expect("a deciding outcome exists");
    assert_eq!(retries, 3);
    assert_eq!(result.unwrap().size(), 1);
}

#[test]
fn only_rate_limits_never_resolve() {
    let outcome = resolve_fetch(vec![response(429, ""), response(429, "")]);
    assert!(outcome.is_none());
}

#[test]
fn malformed_body_is_a_decode_error_and_not_retried() {
    let outcome = resolve_fetch(vec![response(200, "{\"totalResults\": oops")]);
    let (result, retries) = outcome.expect("a deciding outcome exists");
    assert_eq!(retries, 0);
    assert_eq!(result.unwrap_err(), Error::Decode);
}

#[test]
fn transport_failure_resolves_to_a_transport_error() {
    let outcome = resolve_fetch(vec![FetchEvent::Failed { message: "timed out".to_string() }]);
    let (result, retries) = outcome.expect("a deciding outcome exists");
    assert_eq!(retries, 0);
    assert_eq!(result.unwrap_err(), Error::Transport("timed out".to_string()));
}

#[test]
fn decoding_applies_all_defaults_to_an_empty_object() {
    let page = decode_page("{}").expect("an empty object is a valid page");
    assert_eq!(page.size(), 0);
    assert_eq!(page.cursor(), "*");
    assert!(page.results().is_empty());
}

#[test]
fn omitted_total_reads_as_size_zero() {
    let page = decode_page("{\"cursor\": \"abc\", \"results\": []}").unwrap();
    assert_eq!(page.size(), 0);
    assert!(page.results().is_empty());
}

#[test]
fn decoding_reads_all_three_fields() {
    let body = "{\"totalResults\": 3, \"cursor\": \"AoIp\", \"results\": [{\"name\": \"Poa annua\"}, {\"id\": \"320035-2\"}]}";
    let page = decode_page(body).unwrap();
    assert_eq!(page.size(), 3);
    assert_eq!(page.cursor(), "AoIp");
    assert_eq!(
        page.results(),
        &vec!["{\"name\":\"Poa annua\"}".to_string(), "{\"id\":\"320035-2\"}".to_string()]
    );
}

#[test]
fn a_non_object_body_is_a_decode_error() {
    assert_eq!(decode_page("5").unwrap_err(), Error::Decode);
    assert_eq!(decode_page("[]").unwrap_err(), Error::Decode);
}

#[test]
fn a_null_total_reads_as_absent() {
    let page = decode_page("{\"totalResults\": null}").unwrap();
    assert_eq!(page.size(), 0);
}

#[test]
fn a_mistyped_field_is_a_decode_error() {
    assert_eq!(decode_page("{\"totalResults\": \"three\"}").unwrap_err(), Error::Decode);
    assert_eq!(decode_page("{\"cursor\": 7}").unwrap_err(), Error::Decode);
    assert_eq!(decode_page("{\"results\": \"none\"}").unwrap_err(), Error::Decode);
    assert_eq!(decode_page("{\"totalResults\": 4294967296}").unwrap_err(), Error::Decode);
}

#[test]
fn page_from_fields_applies_defaults() {
    let page = page_from_fields::<String>(None, None, None);
    assert_eq!(page.size(), 0);
    assert_eq!(page.cursor(), "*");
    assert!(page.results().is_empty());

    let full = page_from_fields(Some(7), Some("abc".to_string()), Some(vec![1u32, 2, 3]));
    assert_eq!(full.size(), 7);
    assert_eq!(full.cursor(), "abc");
    assert_eq!(full.results(), &vec![1u32, 2, 3]);
}

#[test]
fn request_url_appends_encoded_parameters() {
    let url = request_url(
        "https://beta.ipni.org/api/1",
        "search",
        &vec![
            ("perPage".to_string(), "500".to_string()),
            ("cursor".to_string(), "*".to_string()),
        ],
    );
    assert_eq!(
        url.as_deref(),
        Some("https://beta.ipni.org/api/1/search?perPage=500&cursor=*")
    );
}

#[test]
fn request_url_percent_encodes_values() {
    let url = request_url(
        "https://powo.science.kew.org/api/2",
        "search",
        &vec![("q".to_string(), "genus:Poa annua".to_string())],
    );
    assert_eq!(
        url.as_deref(),
        Some("https://powo.science.kew.org/api/2/search?q=genus%3APoa+annua")
    );
}

#[test]
fn request_url_refuses_a_relative_base() {
    let url = request_url("not a url", "search", &Vec::new());
    assert!(url.is_none());
}
