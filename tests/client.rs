use isahc::http::Method;
use jsonbin::{Error, JSONBin};
use serde_json::Value;

fn count_document(count: u64) -> Value {
    let mut fields = serde_json::Map::new();
    fields.insert("count".to_string(), Value::from(count));
    Value::Object(fields)
}

fn send_failure() -> isahc::Error {
    isahc::Error::from(std::io::Error::new(std::io::ErrorKind::ConnectionRefused, "refused"))
}

#[test]
fn endpoint_appends_path_under_namespace() {
    assert_eq!(JSONBin::endpoint("rust_api_test"), "https://jsonbin.org/me/rust_api_test");
    assert_eq!(JSONBin::endpoint("a/b"), "https://jsonbin.org/me/a/b");
}

#[test]
fn authorization_carries_token() {
    assert_eq!(JSONBin::new("abc123").authorization(), "token abc123");
}

#[test]
fn create_scenario_round_trip() {
    let api = JSONBin::new("abc123");
    let stats = count_document(5);
    let request = api.create_request("rust_api_test", &stats).unwrap();
    assert_eq!(request.method(), &Method::POST);
    assert_eq!(request.uri().to_string(), "https://jsonbin.org/me/rust_api_test");
    assert_eq!(request.headers()["authorization"], "token abc123");
    assert_eq!(request.body(), "{\"count\":5}");
    assert!(JSONBin::create_response(Ok(201)).unwrap());

    let request = api.read_request("rust_api_test").unwrap();
    assert_eq!(request.method(), &Method::GET);
    assert_eq!(request.uri().to_string(), "https://jsonbin.org/me/rust_api_test");
    assert_eq!(request.headers()["authorization"], "token abc123");
    let body = request_body_as_stored("{\"count\":5}");
    assert_eq!(JSONBin::read_response(Ok(body)).unwrap(), stats);
}

fn request_body_as_stored(text: &str) -> Vec<u8> {
    text.as_bytes().to_vec()
}

#[test]
fn empty_token_constructs() {
    let api = JSONBin::new("");
    assert_eq!(api.authorization(), "token ");
    let request = api.read_request("rust_api_test").unwrap();
    assert_eq!(request.headers()["authorization"], "token ");
    assert!(api.create_request("rust_api_test", &count_document(1)).is_ok());
}

#[test]
fn create_success_exactly_for_2xx() {
    for status in [200u16, 201, 204, 299] {
        assert!(JSONBin::create_response(Ok(status)).unwrap(), "status {}", status);
    }
    for status in [100u16, 199, 300, 301, 400, 401, 404, 500, 503] {
        assert!(!JSONBin::create_response(Ok(status)).unwrap(), "status {}", status);
    }
}

#[test]
fn create_send_failure_is_error_not_false() {
    let outcome = JSONBin::create_response(Err(send_failure()));
    assert!(matches!(outcome, Err(Error::SendRequest(_))));
}

#[test]
fn read_send_failure_is_error() {
    let outcome = JSONBin::read_response(Err(send_failure()));
    assert!(matches!(outcome, Err(Error::SendRequest(_))));
}

#[test]
fn read_malformed_body_is_decode_error() {
    for body in ["not json", "{\"count\":", "", "{\"count\":5} trailing"] {
        let outcome = JSONBin::read_response(Ok(body.as_bytes().to_vec()));
        assert!(matches!(outcome, Err(Error::JSONResponse(_))), "body {:?}", body);
    }
}

#[test]
fn decode_document_values() {
    assert_eq!(JSONBin::decode_document(b"[1,2]").unwrap(), Value::from(vec![1u64, 2]));
    assert_eq!(JSONBin::decode_document(b" null ").unwrap(), Value::Null);
    assert!(matches!(JSONBin::decode_document(b"nul"), Err(Error::JSONResponse(_))));
}

#[test]
fn post_document_carries_body() {
    let api = JSONBin::new("t");
    let request = api.post_document("p", "[true]".to_string()).unwrap();
    assert_eq!(request.method(), &Method::POST);
    assert_eq!(request.uri().to_string(), "https://jsonbin.org/me/p");
    assert_eq!(request.body(), "[true]");
}

#[test]
fn token_with_control_character_cannot_build_request() {
    let api = JSONBin::new("bad\ntoken");
    assert!(matches!(api.read_request("p"), Err(Error::CreateRequest(_))));
    assert!(matches!(
        api.create_request("p", &count_document(5)),
        Err(Error::CreateRequest(_))
    ));
    let tabbed = JSONBin::new("tab\there");
    assert!(tabbed.read_request("p").is_ok());
}

#[test]
fn path_that_is_no_uri_cannot_build_request() {
    let api = JSONBin::new("t");
    assert!(matches!(api.read_request("a b"), Err(Error::CreateRequest(_))));
}
