use std::time::Duration;
use wasi_http_client::{Error, Method, RequestBuilder, Scheme};

fn find(headers: &[(String, String)], name: &str) -> Option<String> {
    headers.iter().find(|(k, _)| k == name).map(|(_, v)| v.clone())
}

fn count(headers: &[(String, String)], name: &str) -> usize {
    headers.iter().filter(|(k, _)| k == name).count()
}

#[test]
fn url_parse_failure_is_deferred_to_send() {
    let r = RequestBuilder::new(Method::Get, "not a url")
        .header("Accept", "*/*")
        .body(b"payload")
        .send();
    assert!(matches!(r, Err(Error::UrlParse)));
}

#[test]
fn first_error_wins_over_later_failures() {
    // The first failing call is the bad URL; the later bad header value
    // must not replace it.
    let r = RequestBuilder::new(Method::Get, "not a url")
        .header("X-Bad", "a\u{1}b")
        .send();
    assert!(matches!(r, Err(Error::UrlParse)));
}

#[test]
fn invalid_header_value_is_deferred_first_error() {
    let r = RequestBuilder::new(Method::Get, "http://example.com/get")
        .header("X-Bad", "a\u{1}b")
        .header("Accept", "*/*")
        .query(&[("a", "b")])
        .send();
    assert!(matches!(r, Err(Error::InvalidHeaderValue)));
}

#[test]
fn header_value_may_hold_a_tab() {
    let plan = RequestBuilder::new(Method::Get, "http://example.com/get")
        .header("X-Note", "a\tb")
        .send()
        .unwrap();
    assert_eq!(find(&plan.headers, "X-Note"), Some("a\tb".to_string()));
}

#[test]
fn header_set_twice_keeps_only_the_latest_value() {
    let plan = RequestBuilder::new(Method::Get, "http://example.com/get")
        .header("X-Token", "one")
        .header("X-Token", "two")
        .send()
        .unwrap();
    assert_eq!(find(&plan.headers, "X-Token"), Some("two".to_string()));
    assert_eq!(count(&plan.headers, "X-Token"), 1);
}

#[test]
fn headers_replaces_the_whole_set() {
    let plan = RequestBuilder::new(Method::Get, "http://example.com/get")
        .header("X-Old", "gone")
        .headers(&[("Content-Type", "application/json"), ("Accept", "*/*")])
        .send()
        .unwrap();
    assert_eq!(find(&plan.headers, "X-Old"), None);
    assert_eq!(
        plan.headers,
        vec![
            ("Content-Type".to_string(), "application/json".to_string()),
            ("Accept".to_string(), "*/*".to_string()),
        ]
    );
}

#[test]
fn headers_with_a_repeated_name_keeps_the_later_entry() {
    let plan = RequestBuilder::new(Method::Get, "http://example.com/get")
        .headers(&[("X-Token", "one"), ("X-Token", "two")])
        .send()
        .unwrap();
    assert_eq!(find(&plan.headers, "X-Token"), Some("two".to_string()));
    assert_eq!(count(&plan.headers, "X-Token"), 1);
}

#[test]
fn headers_with_an_invalid_value_is_deferred() {
    let r = RequestBuilder::new(Method::Get, "http://example.com/get")
        .headers(&[("Fine", "ok"), ("X-Bad", "a\u{0}b")])
        .send();
    assert!(matches!(r, Err(Error::InvalidHeaderValue)));
}

#[test]
fn query_merges_into_an_existing_query() {
    let plan = RequestBuilder::new(Method::Get, "http://example.com/get?a=b")
        .query(&[("c", "d")])
        .send()
        .unwrap();
    assert_eq!(plan.path_with_query, "/get?a=b&c=d");
}

#[test]
fn query_on_a_bare_url_starts_the_query() {
    let plan = RequestBuilder::new(Method::Get, "http://example.com/get")
        .query(&[("a", "b"), ("c", "d")])
        .send()
        .unwrap();
    assert_eq!(plan.path_with_query, "/get?a=b&c=d");
}

#[test]
fn query_percent_encodes_through_the_serializer() {
    let plan = RequestBuilder::new(Method::Get, "http://example.com/get")
        .query(&[("k", "v w")])
        .send()
        .unwrap();
    assert_eq!(plan.path_with_query, "/get?k=v+w");
}

#[test]
fn query_with_no_pairs_leaves_the_url_alone() {
    let plan = RequestBuilder::new(Method::Get, "http://example.com/get?a=b")
        .query(&[])
        .send()
        .unwrap();
    assert_eq!(plan.path_with_query, "/get?a=b");
}

#[test]
fn a_delete_character_in_a_header_value_is_rejected() {
    let r = RequestBuilder::new(Method::Get, "http://example.com/get")
        .header("X-Bad", "a\u{7f}b")
        .send();
    assert!(matches!(r, Err(Error::InvalidHeaderValue)));
}

#[test]
fn a_nonstandard_method_is_carried_verbatim() {
    let plan = RequestBuilder::new(Method::Other("PROPFIND".to_string()), "http://example.com/x")
        .send()
        .unwrap();
    assert!(matches!(plan.method, Method::Other(ref s) if s == "PROPFIND"));
    // With no timeout set, the host default applies.
    assert_eq!(plan.connect_timeout, None);
}

#[test]
fn body_sets_raw_bytes_and_no_content_type() {
    let plan = RequestBuilder::new(Method::Post, "http://example.com/post")
        .body(b"hello")
        .send()
        .unwrap();
    assert_eq!(plan.body, Some(b"hello".to_vec()));
    assert_eq!(find(&plan.headers, "Content-Type"), None);
}

#[test]
fn json_sets_content_type_and_exact_encoding() {
    let value: serde_json::Value = serde_json::from_str("{\"data\":\"hello\"}").unwrap();
    let plan = RequestBuilder::new(Method::Post, "http://example.com/post")
        .json(&value)
        .send()
        .unwrap();
    assert_eq!(
        find(&plan.headers, "Content-Type"),
        Some("application/json".to_string())
    );
    assert_eq!(plan.body, Some(b"{\"data\":\"hello\"}".to_vec()));
}

#[test]
fn form_sets_content_type_and_exact_encoding() {
    let plan = RequestBuilder::new(Method::Post, "http://example.com/post")
        .form(&[("a", "b"), ("c", "")])
        .send()
        .unwrap();
    assert_eq!(
        find(&plan.headers, "Content-Type"),
        Some("application/x-www-form-urlencoded".to_string())
    );
    assert_eq!(plan.body, Some(b"a=b&c=".to_vec()));
}

#[test]
fn form_after_json_leaves_only_the_form_body_and_content_type() {
    let value: serde_json::Value = serde_json::from_str("{\"data\":\"hello\"}").unwrap();
    let plan = RequestBuilder::new(Method::Post, "http://example.com/post")
        .json(&value)
        .form(&[("a", "b")])
        .send()
        .unwrap();
    assert_eq!(
        find(&plan.headers, "Content-Type"),
        Some("application/x-www-form-urlencoded".to_string())
    );
    assert_eq!(count(&plan.headers, "Content-Type"), 1);
    assert_eq!(plan.body, Some(b"a=b".to_vec()));
}

#[test]
fn json_after_form_leaves_only_the_json_body_and_content_type() {
    let value: serde_json::Value = serde_json::from_str("[1,2]").unwrap();
    let plan = RequestBuilder::new(Method::Post, "http://example.com/post")
        .form(&[("a", "b")])
        .json(&value)
        .send()
        .unwrap();
    assert_eq!(
        find(&plan.headers, "Content-Type"),
        Some("application/json".to_string())
    );
    assert_eq!(count(&plan.headers, "Content-Type"), 1);
    assert_eq!(plan.body, Some(b"[1,2]".to_vec()));
}

#[test]
fn connect_timeout_is_recorded() {
    let plan = RequestBuilder::new(Method::Get, "http://example.com/get")
        .connect_timeout(Duration::from_secs(5))
        .send()
        .unwrap();
    assert_eq!(plan.connect_timeout, Some(Duration::from_secs(5)));
}

#[test]
fn path_with_query_is_transmitted_byte_for_byte() {
    let plan = RequestBuilder::new(Method::Get, "https://example.com/get?a=b")
        .send()
        .unwrap();
    assert_eq!(plan.path_with_query, "/get?a=b");
}

#[test]
fn path_without_query_has_no_trailing_question_mark() {
    let plan = RequestBuilder::new(Method::Get, "https://example.com/get")
        .send()
        .unwrap();
    assert_eq!(plan.path_with_query, "/get");
}

#[test]
fn schemes_map_onto_the_host_enumeration() {
    let plan = RequestBuilder::new(Method::Get, "http://example.com/")
        .send()
        .unwrap();
    assert!(matches!(plan.scheme, Scheme::Http));

    let plan = RequestBuilder::new(Method::Get, "https://example.com/")
        .send()
        .unwrap();
    assert!(matches!(plan.scheme, Scheme::Https));

    let plan = RequestBuilder::new(Method::Get, "ftp://example.com/")
        .send()
        .unwrap();
    assert!(matches!(plan.scheme, Scheme::Other(ref s) if s == "ftp"));
}

#[test]
fn authority_comes_from_the_parsed_url() {
    let plan = RequestBuilder::new(Method::Get, "http://example.com:8080/x")
        .send()
        .unwrap();
    assert_eq!(plan.authority, "example.com:8080");

    // A default port is elided by the URL parser.
    let plan = RequestBuilder::new(Method::Get, "http://example.com:80/x")
        .send()
        .unwrap();
    assert_eq!(plan.authority, "example.com");
}
