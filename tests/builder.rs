use fluent_http::{
    absolute_parts, decode_json_body, decode_json_text, is_canonical_name, parse_absolute_uri, HttpClient, HttpClientExt, RequestBuilder,
    RequestError, UriParts,
};

fn fresh() -> RequestBuilder {
    let client = HttpClient::create();
    client.build_request()
}

fn header_values(b: &RequestBuilder, name: &str) -> Vec<Vec<Vec<u8>>> {
    b.headers().iter().filter(|h| h.name == name).map(|h| h.values.clone()).collect()
}

#[test]
fn fresh_builder_is_empty() {
    let b = fresh();
    assert!(b.headers().is_empty());
    assert!(b.body().is_empty());
    assert_eq!(b.method_ref(), None);
    assert_eq!(b.target().scheme, None);
    assert_eq!(b.target().authority, None);
    assert_eq!(b.target().path_and_query, None);
}

#[test]
fn uri_accepts_absolute_and_stores_parts() {
    let b = fresh().uri("https://example.com:8443/a/b?x=1").unwrap();
    assert_eq!(b.target().scheme.as_deref(), Some("https"));
    assert_eq!(b.target().authority.as_deref(), Some("example.com:8443"));
    assert_eq!(b.target().path_and_query.as_deref(), Some("/a/b?x=1"));
}

#[test]
fn uri_replaces_earlier_target() {
    let b = fresh().uri("http://a.example/").unwrap().uri("http://b.example/z").unwrap();
    assert_eq!(b.target().authority.as_deref(), Some("b.example"));
    assert_eq!(b.target().path_and_query.as_deref(), Some("/z"));
}

#[test]
fn uri_rejects_empty() {
    assert_eq!(fresh().uri("").err(), Some(RequestError::InvalidUri));
}

#[test]
fn uri_rejects_missing_scheme() {
    assert_eq!(fresh().uri("/only/a/path").err(), Some(RequestError::InvalidUri));
    assert_eq!(fresh().uri("example.com").err(), Some(RequestError::InvalidUri));
}

#[test]
fn uri_rejects_illegal_characters() {
    assert_eq!(fresh().uri("http://exa mple.com/").err(), Some(RequestError::InvalidUri));
    assert_eq!(fresh().uri("http://example.com/\u{7f}").err(), Some(RequestError::InvalidUri));
}

#[test]
fn parse_absolute_uri_agrees_with_uri() {
    assert!(parse_absolute_uri("http://localhost:80/").is_some());
    assert!(parse_absolute_uri("localhost:80").is_none());
}

#[test]
fn method_twice_keeps_last() {
    let b = fresh().method(http::Method::POST).method(http::Method::PUT);
    assert_eq!(b.method_ref(), Some(&http::Method::PUT));
}

#[test]
fn method_once() {
    let b = fresh().method(http::Method::DELETE);
    assert_eq!(b.method_ref(), Some(&http::Method::DELETE));
}

#[test]
fn header_same_name_keeps_later() {
    let b = fresh()
        .insert_header("x-token".to_string(), vec![b"one".to_vec()])
        .insert_header("x-token".to_string(), vec![b"two".to_vec()]);
    assert_eq!(b.headers().len(), 1);
    assert_eq!(header_values(&b, "x-token"), vec![vec![b"two".to_vec()]]);
}

#[test]
fn header_distinct_names_keeps_both_in_order() {
    let b = fresh()
        .insert_header("x-a".to_string(), vec![b"1".to_vec()])
        .insert_header("x-b".to_string(), vec![b"2".to_vec(), b"3".to_vec()]);
    assert_eq!(b.headers().len(), 2);
    assert_eq!(b.headers()[0].name, "x-a");
    assert_eq!(b.headers()[1].name, "x-b");
    assert_eq!(b.headers()[1].values, vec![b"2".to_vec(), b"3".to_vec()]);
}

#[test]
fn header_overwrite_keeps_position() {
    let b = fresh()
        .insert_header("x-a".to_string(), vec![b"1".to_vec()])
        .insert_header("x-b".to_string(), vec![b"2".to_vec()])
        .insert_header("x-a".to_string(), vec![b"9".to_vec()]);
    assert_eq!(b.headers()[0].name, "x-a");
    assert_eq!(b.headers()[0].values, vec![b"9".to_vec()]);
    assert_eq!(b.headers()[1].name, "x-b");
}

#[test]
fn header_with_no_values_changes_nothing() {
    let b = fresh()
        .insert_header("x-a".to_string(), vec![b"1".to_vec()])
        .insert_header("x-a".to_string(), vec![]);
    assert_eq!(header_values(&b, "x-a"), vec![vec![b"1".to_vec()]]);
}

#[test]
fn json_body_text_sets_body_and_content_type() {
    let b = fresh().json_body_text("[1,2]".to_string());
    assert_eq!(b.body(), &b"[1,2]".to_vec());
    assert_eq!(header_values(&b, "content-type"), vec![vec![b"application/json".to_vec()]]);
}

#[test]
fn body_json_overrides_content_type() {
    let b = fresh()
        .insert_header("content-type".to_string(), vec![b"text/plain".to_vec()])
        .body_json(&serde_json::Value::Bool(true))
        .unwrap();
    assert_eq!(b.headers().len(), 1);
    assert_eq!(header_values(&b, "content-type"), vec![vec![b"application/json".to_vec()]]);
    assert_eq!(b.body(), &b"true".to_vec());
}

#[test]
fn body_json_round_trips_through_echoed_body() {
    let mut inner = serde_json::Map::new();
    inner.insert("name".to_string(), serde_json::Value::String("caf\u{e9}".to_string()));
    inner.insert("n".to_string(), serde_json::Value::from(42));
    inner.insert("list".to_string(), serde_json::Value::Array(vec![serde_json::Value::Null, serde_json::Value::from(-3)]));
    let v = serde_json::Value::Object(inner);
    let b = fresh().body_json(&v).unwrap();
    let echoed = b.body().clone();
    assert_eq!(decode_json_body(echoed).unwrap(), v);
}

#[test]
fn decode_object_with_number() {
    let v = decode_json_body(b"{\"a\":1}".to_vec()).unwrap();
    assert_eq!(v["a"].as_i64(), Some(1));
}

#[test]
fn decode_truncated_is_deserialization_error() {
    assert_eq!(decode_json_body(b"{\"a\":".to_vec()).err(), Some(RequestError::DeserializationError));
}

#[test]
fn decode_non_utf8_is_encoding_error() {
    assert_eq!(decode_json_body(vec![0x7b, 0xff, 0xfe, 0x7d]).err(), Some(RequestError::EncodingError));
}

#[test]
fn decode_two_values_is_deserialization_error() {
    assert_eq!(decode_json_text("1 2").err(), Some(RequestError::DeserializationError));
    assert_eq!(decode_json_text("").err(), Some(RequestError::DeserializationError));
}

#[test]
fn decode_text_allows_whitespace() {
    assert_eq!(decode_json_text(" [ ] \n").unwrap(), serde_json::Value::Array(vec![]));
}

#[test]
fn independent_clients_do_not_share_builder_state() {
    let c1 = HttpClient::create();
    let c2 = HttpClient::create();
    let a = c1.build_request().method(http::Method::POST).uri("https://one.example/").unwrap();
    let b = c2.build_request().insert_header("x-b".to_string(), vec![b"2".to_vec()]);
    assert!(a.headers().is_empty());
    assert_eq!(b.target().authority, None);
    let a2 = c1.build_request();
    assert!(a2.headers().is_empty());
    assert_eq!(a2.target().scheme, None);
}

#[test]
fn absolute_parts_needs_scheme_and_authority() {
    let full = UriParts {
        scheme: Some("http".to_string()),
        authority: Some("h.example".to_string()),
        path_and_query: Some("/".to_string()),
    };
    assert_eq!(absolute_parts(Some(full.clone())), Some(full.clone()));
    let no_scheme = UriParts { scheme: None, ..full.clone() };
    assert_eq!(absolute_parts(Some(no_scheme)), None);
    let no_authority = UriParts { authority: None, ..full };
    assert_eq!(absolute_parts(Some(no_authority)), None);
    assert_eq!(absolute_parts(None), None);
}

#[test]
fn canonical_names_are_lower_case() {
    assert!(is_canonical_name("content-type"));
    assert!(is_canonical_name("x-a1"));
    assert!(!is_canonical_name("Content-Type"));
    assert!(!is_canonical_name("x-A"));
}

#[test]
fn body_json_keeps_method_and_target() {
    let b = fresh()
        .method(http::Method::POST)
        .uri("https://api.example/v1")
        .unwrap()
        .body_json(&serde_json::Value::from(7))
        .unwrap();
    assert_eq!(b.method_ref(), Some(&http::Method::POST));
    assert_eq!(b.target().authority.as_deref(), Some("api.example"));
    assert_eq!(b.body(), &b"7".to_vec());
}
