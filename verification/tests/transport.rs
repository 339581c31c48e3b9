use catalog_client::transport::{
    api_request, api_response, create, decode_body, fetch_by_id, update, Method, Request,
    TransportError, API_BASE_URL,
};
use serde_json::Value;

fn header_pairs(request: &Request) -> Vec<(String, String)> {
    let mut pairs = Vec::new();
    for header in &request.headers {
        pairs.push((header.name.clone(), header.value.clone()));
    }
    pairs
}

fn document(text: &str) -> Value {
    serde_json::from_str(text).unwrap()
}

#[test]
fn base_url_is_the_versioned_root() {
    assert_eq!(API_BASE_URL, "https://api.developers.italia.it/v1");
}

#[test]
fn request_targets_the_resource_under_the_base_url() {
    let request = api_request("publishers", Method::Get, None, "secret");
    assert_eq!(request.method, Method::Get);
    assert_eq!(request.url, "https://api.developers.italia.it/v1/publishers");
    assert!(request.body.is_none());
}

#[test]
fn request_carries_both_headers_in_order() {
    let request = api_request("software", Method::Get, None, "secret");
    assert_eq!(
        header_pairs(&request),
        vec![
            ("Authorization".to_string(), "Bearer secret".to_string()),
            ("Content-Type".to_string(), "application/json".to_string()),
        ]
    );
}

#[test]
fn request_sets_the_headers_with_a_body_too() {
    let request = api_request("software", Method::Post, Some(document("{}")), "k");
    assert_eq!(
        header_pairs(&request),
        vec![
            ("Authorization".to_string(), "Bearer k".to_string()),
            ("Content-Type".to_string(), "application/json".to_string()),
        ]
    );
}

#[test]
fn empty_credential_is_passed_through() {
    let request = api_request("logs", Method::Get, None, "");
    assert_eq!(header_pairs(&request)[0], ("Authorization".to_string(), "Bearer ".to_string()));
}

#[test]
fn request_keeps_the_body_as_given() {
    let body = document(r#"{"url":"https://example.org/repo.git","n":[1,2.5,null,true]}"#);
    let request = api_request("software", Method::Post, Some(body.clone()), "t");
    assert_eq!(request.method, Method::Post);
    assert_eq!(request.body, Some(body));
}

#[test]
fn resource_path_may_carry_a_query() {
    let request = api_request("software?page[after]=abc", Method::Get, None, "t");
    assert_eq!(request.url, "https://api.developers.italia.it/v1/software?page[after]=abc");
}

#[test]
fn empty_resource_gives_the_root_with_a_slash() {
    let request = api_request("", Method::Patch, None, "t");
    assert_eq!(request.method, Method::Patch);
    assert_eq!(request.url, "https://api.developers.italia.it/v1/");
}

#[test]
fn create_posts_to_the_collection() {
    let body = document(r#"{"description":"Comune di Test"}"#);
    let request = create("publishers", body.clone(), "tok");
    assert_eq!(request.method, Method::Post);
    assert_eq!(request.url, "https://api.developers.italia.it/v1/publishers");
    assert_eq!(request.body, Some(body));
    assert_eq!(header_pairs(&request)[0].1, "Bearer tok");
}

#[test]
fn update_patches_the_record() {
    let body = document(r#"{"active":false}"#);
    let request = update("software", "42-abc", body.clone(), "tok");
    assert_eq!(request.method, Method::Patch);
    assert_eq!(request.url, "https://api.developers.italia.it/v1/software/42-abc");
    assert_eq!(request.body, Some(body));
}

#[test]
fn fetch_by_id_gets_the_record_without_a_body() {
    let request = fetch_by_id("publishers", "pub-7", "tok");
    assert_eq!(request.method, Method::Get);
    assert_eq!(request.url, "https://api.developers.italia.it/v1/publishers/pub-7");
    assert!(request.body.is_none());
    assert_eq!(header_pairs(&request).len(), 2);
}

#[test]
fn decode_body_reads_a_document() {
    let decoded = decode_body(br#"{"id":"a","tags":["x","y"],"n":3}"#).unwrap();
    assert_eq!(decoded, document(r#"{"n":3,"tags":["x","y"],"id":"a"}"#));
    assert_eq!(decoded.get("id").and_then(|id| id.as_str()), Some("a"));
}

#[test]
fn decode_body_accepts_any_json_value() {
    assert_eq!(decode_body(b"null").unwrap(), Value::Null);
    assert_eq!(decode_body(b" [1, 2] ").unwrap(), document("[1,2]"));
    assert_eq!(decode_body(b"\"text\"").unwrap(), Value::String("text".to_string()));
}

#[test]
fn decode_body_returns_error_payloads_as_values() {
    let decoded = decode_body(br#"{"title":"Not Found","status":404}"#).unwrap();
    assert_eq!(decoded, document(r#"{"title":"Not Found","status":404}"#));
}

#[test]
fn decode_body_rejects_what_is_not_json() {
    assert!(matches!(decode_body(b"<html>oops</html>"), Err(TransportError::InvalidJson(_))));
    assert!(matches!(decode_body(b""), Err(TransportError::InvalidJson(_))));
    assert!(matches!(decode_body(b"{\"a\":1} trailing"), Err(TransportError::InvalidJson(_))));
    assert!(matches!(decode_body(&[0xff, 0xfe]), Err(TransportError::InvalidJson(_))));
}

#[test]
fn response_with_a_body_is_decoded() {
    let reply = api_response(Ok(br#"{"data":[]}"#.to_vec())).unwrap();
    assert_eq!(reply, document(r#"{"data":[]}"#));
}

#[test]
fn response_with_a_bad_body_is_an_invalid_json_error() {
    let reply = api_response(Ok(b"not json".to_vec()));
    assert!(matches!(reply, Err(TransportError::InvalidJson(_))));
}

#[test]
fn network_failure_is_passed_on_with_its_description() {
    let reply = api_response(Err("connection refused".to_string()));
    match reply {
        Err(TransportError::Network(description)) => assert_eq!(description, "connection refused"),
        other => panic!("expected a network failure, got {:?}", other),
    }
}

#[test]
fn transport_error_from_a_json_error_is_invalid_json() {
    let reason = serde_json::from_str::<Value>("{").unwrap_err();
    let line = reason.line();
    match TransportError::from(reason) {
        TransportError::InvalidJson(kept) => {
            assert!(kept.is_eof());
            assert_eq!(kept.line(), line);
        }
        other => panic!("expected an invalid body, got {:?}", other),
    }
}
