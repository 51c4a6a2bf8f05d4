use cloud_init::http_client::{HttpClient, HttpError, HttpOutcome, HttpRequest};
use cloud_init::provider::error::CloudProviderError;

fn answered(status: u16, body: &[u8]) -> HttpOutcome {
    HttpOutcome::Answered {
        status,
        body: body.to_vec(),
    }
}

fn header(name: &str, value: &str) -> (String, String) {
    (name.to_string(), value.to_string())
}

#[test]
fn client_keeps_its_timeout() {
    let mut client = HttpClient::new(5);
    assert_eq!(client.timeout(), 5);
    client.set_timeout(30);
    assert_eq!(client.timeout(), 30);
    client.set_timeout(0);
    assert_eq!(client.timeout(), 0);
}

#[test]
fn plain_request_has_no_headers() {
    let client = HttpClient::new(7);
    assert_eq!(
        client.request_get("http://169.254.169.254/latest/user-data".to_string()),
        Ok(HttpRequest {
            uri: "http://169.254.169.254/latest/user-data".to_string(),
            headers: vec![],
            timeout_secs: 7,
        })
    );
}

#[test]
fn request_keeps_its_headers_in_order() {
    let client = HttpClient::new(3);
    let headers = vec![header("authorization", "EXO2 x=y"), header("X-Other", "1")];
    assert_eq!(
        client.request_get_with_headers("https://api.example.com/v2/x".to_string(), headers.clone()),
        Ok(HttpRequest {
            uri: "https://api.example.com/v2/x".to_string(),
            headers,
            timeout_secs: 3,
        })
    );
}

#[test]
fn malformed_uri_is_a_transport_error() {
    let client = HttpClient::new(5);
    assert_eq!(
        client.request_get("http://exa mple.com/".to_string()),
        Err(HttpError::TransportError)
    );
    assert_eq!(client.request_get("".to_string()), Err(HttpError::TransportError));
    assert_eq!(
        client.request_get_with_headers("".to_string(), vec![header("bad name", "v")]),
        Err(HttpError::TransportError)
    );
}

#[test]
fn malformed_header_name_refuses_the_request() {
    let client = HttpClient::new(5);
    assert_eq!(
        client.request_get_with_headers(
            "http://example.com/".to_string(),
            vec![header("good", "v"), header("bad name", "v")]
        ),
        Err(HttpError::RequestError)
    );
    assert_eq!(
        client.request_get_with_headers("http://example.com/".to_string(), vec![header("", "v")]),
        Err(HttpError::RequestError)
    );
}

#[test]
fn malformed_header_value_refuses_the_request() {
    let client = HttpClient::new(5);
    assert_eq!(
        client.request_get_with_headers(
            "http://example.com/".to_string(),
            vec![header("x-a", "line\nbreak"), header("x-b", "fine")]
        ),
        Err(HttpError::RequestError)
    );
    assert_eq!(
        client.request_get_with_headers(
            "http://example.com/".to_string(),
            vec![header("x-a", "del\u{7f}")]
        ),
        Err(HttpError::RequestError)
    );
}

#[test]
fn tabs_and_bytes_beyond_ascii_may_stand_in_a_value() {
    let client = HttpClient::new(5);
    assert_eq!(client.set_headers(&vec![header("x-a", "a\tb"), header("x-b", "caf\u{e9}")]), Ok(()));
    assert_eq!(client.set_headers(&vec![]), Ok(()));
    assert_eq!(client.set_headers(&vec![header("x-a", "\u{1f}")]), Err(HttpError::RequestError));
    assert_eq!(client.set_headers(&vec![header("x-a", " ")]), Ok(()));
}

#[test]
fn success_hands_the_body_over() {
    let client = HttpClient::new(5);
    assert_eq!(client.parse_response(answered(200, b"hello")), Ok("hello".to_string()));
    assert_eq!(client.parse_response(answered(204, b"")), Ok(String::new()));
    assert_eq!(client.parse_response(answered(302, b"moved")), Ok("moved".to_string()));
    assert_eq!(
        client.parse_response(answered(200, "caf\u{e9}".as_bytes())),
        Ok("caf\u{e9}".to_string())
    );
}

#[test]
fn status_classes_are_told_apart() {
    let client = HttpClient::new(5);
    assert_eq!(client.parse_response(answered(399, b"b")), Ok("b".to_string()));
    assert_eq!(
        client.parse_response(answered(400, b"b")),
        Err(HttpError::ClientError("b".to_string()))
    );
    assert_eq!(
        client.parse_response(answered(404, b"not found")),
        Err(HttpError::ClientError("not found".to_string()))
    );
    assert_eq!(
        client.parse_response(answered(499, b"b")),
        Err(HttpError::ClientError("b".to_string()))
    );
    assert_eq!(
        client.parse_response(answered(500, b"b")),
        Err(HttpError::ServerError("b".to_string()))
    );
    assert_eq!(
        client.parse_response(answered(599, b"oops")),
        Err(HttpError::ServerError("oops".to_string()))
    );
    assert_eq!(client.parse_response(answered(600, b"b")), Ok("b".to_string()));
}

#[test]
fn body_that_is_no_text_is_a_response_error() {
    let client = HttpClient::new(5);
    assert_eq!(client.parse_response(answered(200, &[0xff, 0xfe])), Err(HttpError::ResponseError));
    assert_eq!(client.parse_response(answered(404, &[0xc3])), Err(HttpError::ResponseError));
    assert_eq!(client.parse_response(answered(500, &[0x80])), Err(HttpError::ResponseError));
}

#[test]
fn late_response_is_a_timeout_and_no_transport_error() {
    let client = HttpClient::new(1);
    let response = client.parse_response(HttpOutcome::TimedOut);
    assert_eq!(response, Err(HttpError::Timeout));
    assert_ne!(response, Err(HttpError::TransportError));
}

#[test]
fn failures_of_the_channel_are_told_apart() {
    let client = HttpClient::new(5);
    assert_eq!(client.parse_response(HttpOutcome::TlsFailed), Err(HttpError::TlsError));
    assert_eq!(client.parse_response(HttpOutcome::Failed), Err(HttpError::TransportError));
}

#[test]
fn every_transport_error_is_resource_unreachable() {
    let errors = vec![
        HttpError::Timeout,
        HttpError::TlsError,
        HttpError::RequestError,
        HttpError::TransportError,
        HttpError::ResponseError,
        HttpError::ClientError("c".to_string()),
        HttpError::ServerError("s".to_string()),
    ];
    for error in errors {
        assert_eq!(CloudProviderError::from(error), CloudProviderError::ResourceUnreachable);
    }
}
