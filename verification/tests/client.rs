use cohere_rust::client::{
    Endpoint, COHERE_API_BASE_URL, COHERE_API_TIMEOUT_SECS, COHERE_API_V1,
};
use cohere_rust::exchange::{resolve_error_message, Header, HttpReply};
use cohere_rust::error::RequestFailure;
use cohere_rust::json::Json;
use cohere_rust::status::HttpStatus;
use cohere_rust::{Cohere, CohereApiError};

fn reply(status: u16, body: &[u8]) -> HttpReply {
    HttpReply { status: HttpStatus::from_u16(status).unwrap(), body: body.to_vec() }
}

fn client() -> Cohere {
    Cohere::new("https://example.test/v1", "test-key")
}

fn is_decode_error<T>(r: &Result<T, CohereApiError>) -> bool {
    matches!(r, Err(CohereApiError::RequestError(RequestFailure::Decode(_))))
}

#[test]
fn the_service_lives_at_its_address() {
    assert_eq!("https://api.cohere.ai", COHERE_API_BASE_URL);
    assert_eq!("v1", COHERE_API_V1);
    assert_eq!(120, COHERE_API_TIMEOUT_SECS);
    assert_eq!("https://api.cohere.ai/v1", Cohere::default_url());
}

#[test]
fn every_request_carries_the_four_headers() {
    let headers = Cohere::new("https://example.test/v1", "s3cret").default_headers();
    let expected = vec![
        Header {
            name: "Authorization".to_string(),
            value: "Bearer s3cret".to_string(),
            sensitive: true,
        },
        Header {
            name: "Request-Source".to_string(),
            value: "rust-sdk".to_string(),
            sensitive: false,
        },
        Header {
            name: "Accept".to_string(),
            value: "application/json".to_string(),
            sensitive: false,
        },
        Header {
            name: "Content-Type".to_string(),
            value: "application/json".to_string(),
            sensitive: false,
        },
    ];
    assert_eq!(expected, headers);
}

#[test]
fn urls_join_the_base_and_the_route() {
    let c = client();
    assert_eq!("https://example.test/v1/check-api-key", c.url(Endpoint::CheckApiKey));
    assert_eq!("https://example.test/v1/generate", c.url(Endpoint::Generate));
    assert_eq!("https://example.test/v1/chat", c.url(Endpoint::Chat));
    assert_eq!("https://example.test/v1/embed", c.url(Endpoint::Embed));
    assert_eq!("https://example.test/v1/classify", c.url(Endpoint::Classify));
    assert_eq!("https://example.test/v1/tokenize", c.url(Endpoint::Tokenize));
    assert_eq!("https://example.test/v1/detokenize", c.url(Endpoint::Detokenize));
    assert_eq!("https://example.test/v1/rerank", c.url(Endpoint::Rerank));
    assert_eq!("/chat", Cohere::new("", "k").url(Endpoint::Chat));
    assert_eq!("http://h//chat", Cohere::new("http://h/", "k").url(Endpoint::Chat));
}

#[test]
fn a_request_holds_the_url_and_the_rendered_payload() {
    let request = client().request(Endpoint::Embed, &Json::from_texts(&["hi".to_string()]));
    assert_eq!("https://example.test/v1/embed", request.url);
    assert_eq!("[\"hi\"]", request.body);
}

#[test]
fn the_credential_check_asks_with_null() {
    let request = client().check_api_key_request();
    assert_eq!("https://example.test/v1/check-api-key", request.url);
    assert_eq!("null", request.body);
}

#[test]
fn a_valid_credential_is_accepted() {
    assert!(client().check_api_key(&reply(200, br#"{"valid":true}"#)).is_ok());
}

#[test]
fn an_invalid_credential_is_its_own_error() {
    let r = client().check_api_key(&reply(200, br#"{"valid":false}"#));
    assert!(matches!(r, Err(CohereApiError::InvalidApiKey)));
    assert_eq!("API key is invalid", r.unwrap_err().to_string());
}

#[test]
fn a_credential_check_without_a_verdict_is_a_decode_error() {
    for body in [
        &b"{}"[..],
        br#"{"valid":"yes"}"#,
        br#"{"valid":1}"#,
        br#"{"valid":null}"#,
        br#"{"Valid":true}"#,
        b"true",
        b"[true]",
        b"",
        b"{\"valid\":tru",
    ] {
        let r = client().check_api_key(&reply(200, body));
        assert!(is_decode_error(&r));
        assert_eq!("Unexpected request error", r.unwrap_err().to_string());
    }
}

#[test]
fn a_refused_credential_check_is_an_error_of_the_service() {
    let r = client().check_api_key(&reply(401, br#"{"message":"invalid api token"}"#));
    match r {
        Err(CohereApiError::ApiError(status, message)) => {
            assert_eq!(401, status.as_u16());
            assert_eq!("invalid api token", message);
        },
        _ => panic!("expected an error of the service"),
    }
}

#[test]
fn an_error_answer_exposes_its_status_and_message() {
    let r = client()
        .tokenize(&reply(500, br#"{"message":"invalid request: inputs cannot be empty"}"#));
    match r {
        Err(CohereApiError::ApiError(status, message)) => {
            assert_eq!(500, status.as_u16());
            assert_eq!("invalid request: inputs cannot be empty", message);
        },
        _ => panic!("expected an error of the service"),
    }
}

#[test]
fn an_error_answer_wins_over_a_payload_that_would_decode() {
    let body = br#"{"text":"fine","valid":true,"tokens":[],"token_strings":[]}"#;
    for status in [400, 404, 429, 499, 500, 503, 599] {
        assert!(matches!(
            client().detokenize(&reply(status, body)),
            Err(CohereApiError::ApiError(_, _))
        ));
        assert!(matches!(
            client().tokenize(&reply(status, body)),
            Err(CohereApiError::ApiError(_, _))
        ));
        assert!(matches!(
            client().check_api_key(&reply(status, body)),
            Err(CohereApiError::ApiError(_, _))
        ));
        assert!(matches!(reply(status, body).payload(), Err(CohereApiError::ApiError(_, _))));
    }
}

#[test]
fn other_statuses_are_read_as_payload() {
    let body = br#"{"text":"fine"}"#;
    for status in [100, 200, 201, 204, 302, 399, 600, 999] {
        assert_eq!("fine", client().detokenize(&reply(status, body)).unwrap());
        assert_eq!(&body[..], reply(status, body).payload().unwrap());
    }
}

#[test]
fn an_unstructured_error_body_is_quoted_in_the_message() {
    assert_eq!("Unknown API Error: gateway down", resolve_error_message("gateway down"));
    assert_eq!("Unknown API Error: ", resolve_error_message(""));
    assert_eq!(
        "Unknown API Error: {\"error\":\"x\"}",
        resolve_error_message("{\"error\":\"x\"}")
    );
    assert_eq!(
        "Unknown API Error: {\"message\":7}",
        resolve_error_message("{\"message\":7}")
    );
    assert_eq!(
        "Unknown API Error: [\"message\"]",
        resolve_error_message("[\"message\"]")
    );
    assert_eq!("told", resolve_error_message("{\"message\":\"told\",\"code\":3}"));
    assert_eq!("", resolve_error_message("{\"message\":\"\"}"));
}

#[test]
fn an_error_body_that_is_not_utf8_is_read_with_replacements() {
    let r = reply(502, b"bad \xff gateway").api_error();
    match r {
        CohereApiError::ApiError(status, message) => {
            assert_eq!(502, status.as_u16());
            assert_eq!("Unknown API Error: bad \u{fffd} gateway", message);
        },
        _ => panic!("expected an error of the service"),
    }
}

#[test]
fn a_payload_of_another_shape_is_a_decode_error() {
    let c = client();
    for body in [
        &b"{}"[..],
        br#"{"text":7}"#,
        br#"{"text":null}"#,
        br#"["text"]"#,
        b"\"text\"",
        b"<html>",
        b"",
    ] {
        assert!(is_decode_error(&c.detokenize(&reply(200, body))));
    }
    for body in [
        &b"{}"[..],
        br#"{"tokens":[1,2]}"#,
        br#"{"token_strings":["a"]}"#,
        br#"{"tokens":[1,-2],"token_strings":["a","b"]}"#,
        br#"{"tokens":[1,2.5],"token_strings":["a","b"]}"#,
        br#"{"tokens":[1,"2"],"token_strings":["a","b"]}"#,
        br#"{"tokens":[1,2],"token_strings":["a",2]}"#,
        br#"{"tokens":"1,2","token_strings":["a","b"]}"#,
        br#"{"tokens":[18446744073709551616],"token_strings":["a"]}"#,
        b"[]",
        b"{\"tokens\":[1",
    ] {
        assert!(is_decode_error(&c.tokenize(&reply(200, body))));
    }
}

#[test]
fn a_payload_that_is_not_json_is_a_decode_error() {
    assert!(is_decode_error(&reply(200, b"<html>").payload_json()));
    assert!(reply(200, b"{\"a\":1}").payload_json().is_ok());
    assert!(matches!(
        reply(500, b"{\"a\":1}").payload_json(),
        Err(CohereApiError::ApiError(_, _))
    ));
}

#[test]
fn status_codes_run_from_100_to_999() {
    assert!(HttpStatus::from_u16(0).is_none());
    assert!(HttpStatus::from_u16(99).is_none());
    assert!(HttpStatus::from_u16(1000).is_none());
    assert!(HttpStatus::from_u16(u16::MAX).is_none());
    assert_eq!(100, HttpStatus::from_u16(100).unwrap().as_u16());
    assert_eq!(999, HttpStatus::from_u16(999).unwrap().as_u16());
}

#[test]
fn status_classes_are_told_apart() {
    let status = |code: u16| HttpStatus::from_u16(code).unwrap();
    assert!(!status(399).is_client_error());
    assert!(status(400).is_client_error());
    assert!(status(499).is_client_error());
    assert!(!status(500).is_client_error());
    assert!(!status(499).is_server_error());
    assert!(status(500).is_server_error());
    assert!(status(599).is_server_error());
    assert!(!status(600).is_server_error());
    assert!(!status(200).is_failure());
    assert!(!status(399).is_failure());
    assert!(status(400).is_failure());
    assert!(status(599).is_failure());
    assert!(!status(600).is_failure());
}

#[test]
fn statuses_are_written_with_their_reason() {
    let line = |code: u16| HttpStatus::from_u16(code).unwrap().to_string();
    assert_eq!("200 OK", line(200));
    assert_eq!("404 Not Found", line(404));
    assert_eq!("429 Too Many Requests", line(429));
    assert_eq!("500 Internal Server Error", line(500));
    assert_eq!("599 <unknown status code>", line(599));
    assert_eq!("999 <unknown status code>", line(999));
}

#[test]
fn errors_tell_what_went_wrong() {
    assert_eq!("API key is invalid", CohereApiError::InvalidApiKey.to_string());
    assert_eq!("Unknown error", CohereApiError::Unknown.to_string());
    assert_eq!(
        "API request failed with status code `404 Not Found` and error message `no such model`",
        CohereApiError::ApiError(HttpStatus::from_u16(404).unwrap(), "no such model".to_string())
            .to_string()
    );
    let parse_error = cohere_rust::json::parse(b"{").unwrap_err();
    let error = CohereApiError::from(parse_error);
    assert!(matches!(error, CohereApiError::RequestError(RequestFailure::Decode(_))));
    assert_eq!("Unexpected request error", error.to_string());
}

#[test]
fn a_failed_exchange_is_a_request_error() {
    let failure = reqwest::Client::new().get("no scheme, no host").build().unwrap_err();
    let error = CohereApiError::from(failure);
    assert!(matches!(error, CohereApiError::RequestError(RequestFailure::Transport(_))));
    assert_eq!("Unexpected request error", error.to_string());
}
