use apiai_client::client::{AUTH_SCHEME, DEFAULT_VERSION, QUERY_ENDPOINT};
use apiai_client::{
    classify_response, read_exchange, read_response, ApiError, Client, JsonMap, QueryOptions,
};

fn options_of(pairs: &[(&str, &str)]) -> QueryOptions {
    let mut options = QueryOptions::new();
    for (k, v) in pairs {
        options.insert(k.to_string(), v.to_string());
    }
    options
}

fn json_object(text: &str) -> JsonMap {
    serde_json::from_str(text).unwrap()
}

const SUCCESS_BODY: &str = r#"{"id":"x","timestamp":"t","lang":"de","sessionId":"12","result":{"action":"a","fulfillment":{"speech":"s","messages":[]},"contexts":[]}}"#;

#[test]
fn new_accepts_empty_and_odd_values() {
    let client = Client::new("", "", "");
    assert_eq!(client.build_auth_header(), "Bearer ");
    let client = Client::new("not a token", "xx-YY", "");
    assert_eq!(client.build_auth_header(), "Bearer not a token");
}

#[test]
fn auth_header_prefixes_bearer() {
    let client = Client::new("TOKEN", "de", "12");
    assert_eq!(client.build_auth_header(), "Bearer TOKEN");
    assert_eq!(AUTH_SCHEME, "Bearer ");
}

#[test]
fn url_appends_version() {
    let client = Client::new("TOKEN", "de", "12");
    assert_eq!(client.build_url("20150910"), "https://api.api.ai/v1/query?v=20150910");
    assert_eq!(client.build_url(""), QUERY_ENDPOINT);
}

#[test]
fn prepared_request_with_default_version() {
    let client = Client::new("TOKEN", "de", "12");
    let prepared = client.prepare_text_request("Hallo", options_of(&[("timezone", "Europe/Paris")]));
    assert_eq!(prepared.url, "https://api.api.ai/v1/query?v=20150910");
    assert_eq!(DEFAULT_VERSION, "20150910");
    assert_eq!(prepared.authorization, "Bearer TOKEN");
    assert_eq!(prepared.body.get("query").unwrap(), "Hallo");
    assert_eq!(prepared.body.get("lang").unwrap(), "de");
    assert_eq!(prepared.body.get("sessionId").unwrap(), "12");
    assert_eq!(prepared.body.get("timezone").unwrap(), "Europe/Paris");
    assert!(prepared.body.get("version").is_none());
}

#[test]
fn reserved_keys_overwrite_caller_values() {
    let client = Client::new("TOKEN", "de", "12");
    let options = options_of(&[("query", "spoof"), ("lang", "fr"), ("sessionId", "99"), ("a", "b")]);
    let prepared = client.prepare_text_request("Hallo", options);
    assert_eq!(prepared.body.get("query").unwrap(), "Hallo");
    assert_eq!(prepared.body.get("lang").unwrap(), "de");
    assert_eq!(prepared.body.get("sessionId").unwrap(), "12");
    assert_eq!(prepared.body.get("a").unwrap(), "b");
}

#[test]
fn version_option_selects_url_and_leaves_body() {
    let client = Client::new("TOKEN", "de", "12");
    let prepared = client.prepare_text_request("Hallo", options_of(&[("version", "20170712")]));
    assert_eq!(prepared.url, "https://api.api.ai/v1/query?v=20170712");
    assert!(prepared.body.get("version").is_none());
    let payload = String::from_utf8(prepared.payload).unwrap();
    assert!(!payload.contains("version"));
}

#[test]
fn payload_is_json_object_of_body() {
    let client = Client::new("TOKEN", "de", "12");
    let options = options_of(&[("timezone", "Europe/Paris"), ("version", "1")]);
    let prepared = client.prepare_text_request("Hallo \"du\"", options);
    let payload = String::from_utf8(prepared.payload).unwrap();
    assert_eq!(
        payload,
        r#"{"lang":"de","query":"Hallo \"du\"","sessionId":"12","timezone":"Europe/Paris"}"#
    );
}

#[test]
fn options_insert_get_remove() {
    let mut options = QueryOptions::new();
    assert!(options.get("k").is_none());
    assert_eq!(options.insert("k".to_string(), "1".to_string()), None);
    assert_eq!(options.insert("k".to_string(), "2".to_string()), Some("1".to_string()));
    assert_eq!(options.get("k").unwrap(), "2");
    assert_eq!(options.remove("k"), Some("2".to_string()));
    assert_eq!(options.remove("k"), None);
    assert!(options.get("k").is_none());
}

#[test]
fn success_body_is_returned() {
    let result = read_response(200, SUCCESS_BODY.as_bytes());
    let map = result.unwrap();
    assert_eq!(map, json_object(SUCCESS_BODY));
    let result = map.get("result").unwrap().as_object().unwrap();
    assert!(result.contains_key("fulfillment"));
}

#[test]
fn rejection_body_is_the_error() {
    let body = r#"{"status":{"code":400,"errorType":"bad_request"}}"#;
    match read_response(400, body.as_bytes()) {
        Err(ApiError::RemoteRejection(map)) => assert_eq!(map, json_object(body)),
        other => panic!("unexpected outcome: {:?}", other),
    }
}

#[test]
fn transport_failure_is_reported() {
    match read_exchange(Err("connection reset".to_string())) {
        Err(ApiError::TransportFailure(reason)) => assert_eq!(reason, "connection reset"),
        other => panic!("unexpected outcome: {:?}", other),
    }
}

#[test]
fn non_json_body_is_decode_failure() {
    assert!(matches!(
        read_response(200, b"<html>busy</html>"),
        Err(ApiError::DecodeFailure(_))
    ));
    assert!(matches!(read_response(500, b""), Err(ApiError::DecodeFailure(_))));
    assert!(matches!(read_response(200, b"[1,2]"), Err(ApiError::DecodeFailure(_))));
}

#[test]
fn exchange_with_answer_is_classified() {
    let ok = read_exchange(Ok((200, SUCCESS_BODY.as_bytes().to_vec())));
    assert_eq!(ok.unwrap(), json_object(SUCCESS_BODY));
    let rejected = read_exchange(Ok((401, b"{}".to_vec())));
    assert!(matches!(rejected, Err(ApiError::RemoteRejection(_))));
}

#[test]
fn status_class_edges() {
    let body = || Ok(json_object("{}"));
    assert!(classify_response(200, body()).is_ok());
    assert!(classify_response(204, body()).is_ok());
    assert!(classify_response(299, body()).is_ok());
    assert!(matches!(classify_response(199, body()), Err(ApiError::RemoteRejection(_))));
    assert!(matches!(classify_response(300, body()), Err(ApiError::RemoteRejection(_))));
    assert!(matches!(classify_response(404, body()), Err(ApiError::RemoteRejection(_))));
}
