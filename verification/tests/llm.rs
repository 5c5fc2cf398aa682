use std::time::Duration;

use immich_alt_text::http::{Auth, Json, Method, Request};
use immich_alt_text::llm::{
    check_status, read_description, read_ping, sort_status, LlmClient, LlmError,
};

const JPEG: &[u8] = &[0xFF, 0xD8, 0xFF, 0xE0];

fn client(key: &str) -> LlmClient {
    LlmClient::new("http://llm/v1", key, "gemma", 200, Duration::from_secs(5))
}

fn text(s: &str) -> Json {
    Json::Text(s.into())
}

fn object(members: Vec<(&str, Json)>) -> Json {
    Json::Object(
        members
            .into_iter()
            .map(|(name, value)| (name.to_string(), value))
            .collect(),
    )
}

#[test]
fn describe_sends_openai_vision_shape() {
    let image = "data:image/jpeg;base64,/9j/4A==";
    let content = Json::List(vec![
        object(vec![("type", text("text")), ("text", text("describe it"))]),
        object(vec![
            ("type", text("image_url")),
            ("image_url", object(vec![("url", text(image))])),
        ]),
    ]);
    let expected = Request {
        method: Method::Post,
        url: "http://llm/v1/chat/completions".into(),
        auth: Auth::Bearer("sk-test".into()),
        body: Some(object(vec![
            ("model", text("gemma")),
            ("max_tokens", Json::Number(200)),
            (
                "messages",
                Json::List(vec![object(vec![
                    ("role", text("user")),
                    ("content", content),
                ])]),
            ),
        ])),
    };
    let request = client("sk-test").describe(&JPEG.to_vec(), "describe it");
    assert_eq!(request, expected);
    assert_eq!(client("sk-test").describe_at(image, "describe it"), expected);

    assert_eq!(
        read_description(vec![Some("  A red bike.  \n".into())]),
        Ok("A red bike.".into())
    );
}

#[test]
fn empty_key_sends_no_authorization_header() {
    let request = client("").describe(&JPEG.to_vec(), "p");
    assert_eq!(request.auth, Auth::Anonymous);
    assert_eq!(read_description(vec![Some("x".into())]), Ok("x".into()));
}

#[test]
fn trailing_slash_in_base_url_is_tolerated() {
    let c = LlmClient::new("http://llm/v1/", "", "m", 10, Duration::from_secs(5));
    assert_eq!(
        c.describe(&JPEG.to_vec(), "p").url,
        "http://llm/v1/chat/completions"
    );
}

#[test]
fn empty_content_is_permanent() {
    let err = read_description(vec![Some("   ".into())]).unwrap_err();
    assert!(matches!(err, LlmError::Permanent(_)), "{err:?}");
    assert_eq!(err.to_string(), "llm: model returned no text");
}

#[test]
fn missing_choices_is_permanent() {
    let err = read_description(Vec::new()).unwrap_err();
    assert!(matches!(err, LlmError::Permanent(_)), "{err:?}");
    let err = read_description(vec![None, Some("second".into())]).unwrap_err();
    assert!(matches!(err, LlmError::Permanent(_)), "{err:?}");
}

#[test]
fn unauthorized_and_not_found_are_fatal() {
    for status in [401u16, 403, 404] {
        let err = check_status(status).unwrap_err();
        assert!(matches!(err, LlmError::Fatal(_)), "{status}: {err:?}");
    }
    assert_eq!(
        check_status(404).unwrap_err().to_string(),
        "llm: HTTP 404 Not Found: check the base URL and model name"
    );
}

#[test]
fn server_errors_and_rate_limits_are_transient() {
    for status in [500u16, 503, 429] {
        let err = check_status(status).unwrap_err();
        assert!(matches!(err, LlmError::Transient(_)), "{status}: {err:?}");
    }
}

#[test]
fn bad_request_is_permanent() {
    let err = check_status(400).unwrap_err();
    assert!(matches!(err, LlmError::Permanent(_)), "{err:?}");
    assert_eq!(
        LlmError::bad_request("bad url").to_string(),
        "llm: bad request: bad url"
    );
}

#[test]
fn ping_hits_models() {
    assert_eq!(
        client("k").ping(),
        Request {
            method: Method::Get,
            url: "http://llm/v1/models".into(),
            auth: Auth::Bearer("k".into()),
            body: None,
        }
    );
    assert_eq!(read_ping(200), Ok("200 OK".into()));
}

#[test]
fn ping_reports_fatal_on_unauthorized() {
    let err = read_ping(401).unwrap_err();
    assert!(matches!(err, LlmError::Fatal(_)), "{err:?}");
}

#[test]
fn llm_request_timeout_is_transient() {
    let err = LlmError::transport("operation timed out");
    assert!(matches!(err, LlmError::Transient(_)), "{err:?}");
}

#[test]
fn llm_setup_and_body_failures() {
    assert_eq!(
        LlmError::no_client("no tls"),
        LlmError::Fatal("http client: no tls".into())
    );
    assert_eq!(
        LlmError::bad_body("eof"),
        LlmError::Permanent("bad response body: eof".into())
    );
    assert_eq!(
        sort_status(502, "502 Bad Gateway"),
        Err(LlmError::Transient("HTTP 502 Bad Gateway".into()))
    );
    assert!(sort_status(204, "204 No Content").is_ok());
}
