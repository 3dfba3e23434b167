use wasi_http_client::{Error, Response};

fn find(headers: &[(String, String)], name: &str) -> Option<String> {
    headers.iter().find(|(k, _)| k == name).map(|(_, v)| v.clone())
}

#[test]
fn status_and_headers_are_extracted() {
    let resp = Response::new(
        200,
        vec![("content-type".to_string(), b"application/json".to_vec())],
        vec![],
    )
    .unwrap();
    assert_eq!(resp.status(), 200);
    assert_eq!(
        find(resp.headers(), "content-type"),
        Some("application/json".to_string())
    );
}

#[test]
fn header_values_are_decoded_as_utf8() {
    let resp = Response::new(
        200,
        vec![("x-name".to_string(), vec![0xc3, 0xa9])],
        vec![],
    )
    .unwrap();
    assert_eq!(find(resp.headers(), "x-name"), Some("\u{e9}".to_string()));
}

#[test]
fn an_undecodable_header_value_fails_the_response() {
    let r = Response::new(
        200,
        vec![
            ("fine".to_string(), b"ok".to_vec()),
            ("bad".to_string(), vec![0xff, 0xfe]),
        ],
        vec![],
    );
    assert!(matches!(r, Err(Error::InvalidHeaderEncoding)));
}

#[test]
fn chunks_come_back_in_arrival_order_then_one_terminal_none() {
    let mut resp = Response::new(
        200,
        vec![],
        vec![b"ab".to_vec(), b"cd".to_vec()],
    )
    .unwrap();
    assert_eq!(resp.chunk(16), Some(b"ab".to_vec()));
    assert_eq!(resp.chunk(16), Some(b"cd".to_vec()));
    assert_eq!(resp.chunk(16), None);
    // A read after the terminal `None` stays `None`: no error, no
    // resurrected data.
    assert_eq!(resp.chunk(16), None);
}

#[test]
fn a_large_segment_is_handed_out_in_len_sized_pieces() {
    let mut resp = Response::new(200, vec![], vec![b"abcdef".to_vec()]).unwrap();
    assert_eq!(resp.chunk(4), Some(b"abcd".to_vec()));
    assert_eq!(resp.chunk(4), Some(b"ef".to_vec()));
    assert_eq!(resp.chunk(4), None);
}

#[test]
fn segments_are_never_merged() {
    let mut resp = Response::new(200, vec![], vec![b"ab".to_vec(), b"cd".to_vec()]).unwrap();
    // Even though four bytes were asked for, only the front segment comes.
    assert_eq!(resp.chunk(4), Some(b"ab".to_vec()));
}

#[test]
fn body_concatenates_all_segments() {
    let resp = Response::new(
        200,
        vec![],
        vec![b"hello ".to_vec(), b"wo".to_vec(), b"rld".to_vec()],
    )
    .unwrap();
    assert_eq!(resp.body(), b"hello world".to_vec());
}

#[test]
fn body_of_an_empty_stream_is_empty() {
    let resp = Response::new(204, vec![], vec![]).unwrap();
    assert_eq!(resp.body(), Vec::<u8>::new());
}

#[test]
fn body_after_some_chunks_returns_only_the_rest() {
    let mut resp = Response::new(
        200,
        vec![],
        vec![b"ab".to_vec(), b"cd".to_vec(), b"ef".to_vec()],
    )
    .unwrap();
    assert_eq!(resp.chunk(16), Some(b"ab".to_vec()));
    assert_eq!(resp.body(), b"cdef".to_vec());
}

#[test]
fn json_decodes_the_buffered_body() {
    let resp = Response::new(
        200,
        vec![],
        vec![b"{\"args\":".to_vec(), b"{\"a\":\"b\"}}".to_vec()],
    )
    .unwrap();
    let v = resp.json().unwrap();
    let expected: serde_json::Value = serde_json::from_str("{\"args\":{\"a\":\"b\"}}").unwrap();
    assert_eq!(v, expected);
}

#[test]
fn json_on_a_malformed_body_reports_the_decode_failure() {
    let resp = Response::new(200, vec![], vec![b"not json".to_vec()]).unwrap();
    assert!(matches!(resp.json(), Err(Error::Serialization)));
}
