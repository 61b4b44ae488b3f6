use echo_service::echo::{
    body_bytes, classify_body, decode_path, echo, header_entries, parse_query, BodyField,
    EchoRequest, BODY_LIMIT,
};

fn request(path: &str, query: Option<&str>, body: Option<Vec<u8>>) -> EchoRequest {
    EchoRequest {
        host: "localhost:8000".to_string(),
        method: "POST".to_string(),
        path: path.to_string(),
        headers: vec![
            ("host".to_string(), b"localhost:8000".to_vec()),
            ("content-type".to_string(), b"application/json".to_vec()),
        ],
        query: query.map(|q| q.to_string()),
        body,
    }
}

fn pairs(v: &[(&str, &str)]) -> Vec<(String, String)> {
    v.iter().map(|(k, x)| (k.to_string(), x.to_string())).collect()
}

#[test]
fn empty_body_omits_body() {
    let r = echo(request("/", None, Some(Vec::new())));
    assert_eq!(r.body, None);
}

#[test]
fn query_params_hold_decoded_pairs() {
    let r = echo(request("/", Some("a=1&b=hello+world&c=%41%62"), None));
    assert_eq!(
        r.query_params,
        Some(pairs(&[("a", "1"), ("b", "hello world"), ("c", "Ab")]))
    );
}

#[test]
fn no_query_string_gives_no_query_params() {
    let r = echo(request("/x", None, None));
    assert_eq!(r.query_params, None);
}

#[test]
fn empty_query_string_gives_empty_query_params() {
    let r = echo(request("/x", Some(""), None));
    assert_eq!(r.query_params, Some(Vec::new()));
}

#[test]
fn repeated_query_key_keeps_last_value() {
    assert_eq!(
        parse_query(&Some("k=1&j=2&k=3".to_string())),
        Some(pairs(&[("j", "2"), ("k", "3")]))
    );
}

#[test]
fn json_object_body_is_embedded() {
    let r = echo(request("/", None, Some(b"{\"a\":1}".to_vec())));
    let expected: serde_json::Value = serde_json::from_str("{\"a\":1}").unwrap();
    assert_eq!(r.body, Some(BodyField::Json(expected)));
}

#[test]
fn literal_true_is_json_boolean() {
    let r = echo(request("/", None, Some(b"true".to_vec())));
    assert_eq!(r.body, Some(BodyField::Json(serde_json::Value::Bool(true))));
}

#[test]
fn bare_number_is_json() {
    let r = classify_body(&b"42".to_vec());
    let expected: serde_json::Value = serde_json::from_str("42").unwrap();
    assert_eq!(r, Some(BodyField::Json(expected)));
}

#[test]
fn plain_text_body_is_string() {
    let r = echo(request("/", None, Some(b"hello world".to_vec())));
    assert_eq!(r.body, Some(BodyField::Utf8("hello world".to_string())));
}

#[test]
fn invalid_utf8_body_is_base64() {
    let r = echo(request("/", None, Some(vec![0xFF, 0xFE])));
    assert_eq!(r.body, Some(BodyField::Base64("//4=".to_string())));
}

#[test]
fn three_byte_binary_body_has_no_padding() {
    let r = classify_body(&vec![0xFF, 0xFE, 0xFD]);
    assert_eq!(r, Some(BodyField::Base64("//79".to_string())));
}

#[test]
fn body_over_limit_is_omitted() {
    let r = echo(request("/", None, Some(vec![b'a'; BODY_LIMIT + 1])));
    assert_eq!(r.body, None);
    assert_eq!(r.method, "POST");
}

#[test]
fn body_at_limit_is_kept() {
    let b = body_bytes(Some(vec![b'a'; BODY_LIMIT]));
    assert_eq!(b.len(), BODY_LIMIT);
}

#[test]
fn unreadable_body_is_omitted() {
    let r = echo(request("/", None, None));
    assert_eq!(r.body, None);
}

#[test]
fn path_is_percent_decoded() {
    let r = echo(request("/a%20b", None, None));
    assert_eq!(r.path, "/a b");
}

#[test]
fn invalid_utf8_in_path_is_replaced() {
    assert_eq!(decode_path(&"/%FF".to_string()), "/\u{FFFD}");
}

#[test]
fn lone_percent_in_path_is_kept() {
    assert_eq!(decode_path(&"/100%".to_string()), "/100%");
    assert_eq!(decode_path(&"/%zz".to_string()), "/%zz");
}

#[test]
fn identical_requests_give_identical_responses() {
    let a = echo(request("/p%2Fq", Some("x=1"), Some(b"{\"k\":[1,2]}".to_vec())));
    let b = echo(request("/p%2Fq", Some("x=1"), Some(b"{\"k\":[1,2]}".to_vec())));
    assert_eq!(a, b);
}

#[test]
fn request_without_headers_has_header_mapping() {
    let mut req = request("/", None, None);
    req.headers = Vec::new();
    let r = echo(req);
    assert_eq!(r.headers, Vec::new());
    assert_eq!(r.host, "localhost:8000");
}

#[test]
fn headers_are_kept_by_name() {
    let r = echo(request("/", None, None));
    assert_eq!(
        r.headers,
        pairs(&[("host", "localhost:8000"), ("content-type", "application/json")])
    );
}

#[test]
fn repeated_header_keeps_last_value() {
    let h = vec![
        ("x-a".to_string(), b"1".to_vec()),
        ("x-b".to_string(), b"2".to_vec()),
        ("x-a".to_string(), b"3".to_vec()),
    ];
    assert_eq!(header_entries(&h), pairs(&[("x-b", "2"), ("x-a", "3")]));
}

#[test]
fn header_value_that_is_not_text_is_decoded_lossily() {
    let h = vec![("x-bin".to_string(), vec![b'a', 0xFF])];
    assert_eq!(header_entries(&h), pairs(&[("x-bin", "a\u{FFFD}")]));
}
