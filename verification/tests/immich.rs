use std::time::Duration;

use immich_alt_text::http::{Auth, Json, Method, Request};
use immich_alt_text::immich::{
    check_status, next_page_from, read_page, read_preview, read_version, sort_status, Asset,
    FoundAsset, ImmichClient, ImmichError, SearchReply,
};

fn client() -> ImmichClient {
    ImmichClient::new("http://photos", "k", Duration::from_secs(5))
}

fn key() -> Auth {
    Auth::ApiKey("k".into())
}

fn text(s: &str) -> Json {
    Json::Text(s.into())
}

fn found(id: &str, name: &str, exif: Option<Option<&str>>) -> FoundAsset {
    FoundAsset {
        id: id.into(),
        original_file_name: name.into(),
        exif: exif.map(|d| d.map(|d| d.to_string())),
    }
}

#[test]
fn version_reads_semver() {
    assert_eq!(
        client().version(),
        Request {
            method: Method::Get,
            url: "http://photos/api/server/version".into(),
            auth: key(),
            body: None,
        }
    );
    assert_eq!(read_version(3, 1, 0), "v3.1.0");
}

#[test]
fn trailing_slash_in_url_is_tolerated() {
    let c = ImmichClient::new("http://photos/", "k", Duration::from_secs(5));
    assert_eq!(c.version().url, "http://photos/api/server/version");
    let c = ImmichClient::new("http://photos///", "k", Duration::from_secs(5));
    assert_eq!(c.base, "http://photos/api");
    assert_eq!(read_version(3, 2, 0), "v3.2.0");
}

#[test]
fn list_images_sends_search_body_and_parses_page() {
    assert_eq!(
        client().list_images(1, 2),
        Request {
            method: Method::Post,
            url: "http://photos/api/search/metadata".into(),
            auth: key(),
            body: Some(Json::Object(vec![
                ("type".into(), text("IMAGE")),
                ("withExif".into(), Json::Bool(true)),
                ("size".into(), Json::Number(2)),
                ("page".into(), Json::Number(1)),
                ("order".into(), text("desc")),
            ])),
        }
    );

    let page = read_page(SearchReply {
        items: vec![
            found("a1", "IMG_1.HEIC", Some(None)),
            found("a2", "IMG_2.HEIC", Some(Some("a dog"))),
        ],
        next_page: Some("2".into()),
    })
    .unwrap();
    assert_eq!(page.next_page, Some(2));
    assert_eq!(page.items.len(), 2);
    assert_eq!(page.items[0].id, "a1");
    assert_eq!(page.items[0].name, "IMG_1.HEIC");
    assert!(page.items[0].needs_description());
    assert!(!page.items[1].needs_description());
}

#[test]
fn list_images_invalid_next_page_is_permanent() {
    let err = read_page(SearchReply {
        items: vec![found("a1", "x.jpg", Some(None))],
        next_page: Some("nope".into()),
    })
    .unwrap_err();
    assert!(matches!(err, ImmichError::Permanent(_)), "{err:?}");
    assert!(err.to_string().contains("nextPage"));
    assert_eq!(
        err.to_string(),
        "immich: bad nextPage value: invalid digit found in string"
    );
}

#[test]
fn list_images_handles_last_page_and_missing_exif() {
    let page = read_page(SearchReply {
        items: vec![found("a3", "x.jpg", None)],
        next_page: None,
    })
    .unwrap();
    assert_eq!(page.next_page, None);
    assert!(page.items[0].needs_description());
}

#[test]
fn blank_description_needs_a_new_one() {
    let a = Asset {
        id: "x".into(),
        name: "x".into(),
        description: Some("   ".into()),
    };
    assert!(a.needs_description());
    assert_eq!(a.clone(), a);
}

#[test]
fn preview_jpeg_requests_preview_size() {
    let request = client().preview_jpeg("a1");
    assert_eq!(request.method, Method::Get);
    assert_eq!(
        request.url,
        "http://photos/api/assets/a1/thumbnail?size=preview"
    );
    assert_eq!(request.auth, key());
    assert_eq!(
        read_preview(vec![0xFF, 0xD8, 0xFF]),
        Ok(vec![0xFF, 0xD8, 0xFF])
    );
}

#[test]
fn empty_preview_is_permanent() {
    assert_eq!(
        read_preview(Vec::new()),
        Err(ImmichError::Permanent("empty preview body".into()))
    );
}

#[test]
fn set_description_puts_json() {
    assert_eq!(
        client().set_description("a1", "A dog on a dock."),
        Request {
            method: Method::Put,
            url: "http://photos/api/assets/a1".into(),
            auth: key(),
            body: Some(Json::Object(vec![(
                "description".into(),
                text("A dog on a dock.")
            )])),
        }
    );
}

#[test]
fn unauthorized_is_fatal() {
    let err = check_status(401).unwrap_err();
    assert!(matches!(err, ImmichError::Fatal(_)), "{err:?}");
    assert!(err.to_string().contains("401"));
    assert_eq!(
        err.to_string(),
        "immich: HTTP 401 Unauthorized: check the API key"
    );
}

#[test]
fn forbidden_is_fatal() {
    let err = check_status(403).unwrap_err();
    assert!(matches!(err, ImmichError::Fatal(_)), "{err:?}");
    assert!(err.to_string().contains("403"));
}

#[test]
fn rate_limited_is_transient() {
    let err = check_status(429).unwrap_err();
    assert!(matches!(err, ImmichError::Transient(_)), "{err:?}");
    assert!(err.to_string().contains("429"));
}

#[test]
fn server_error_is_transient() {
    let err = check_status(503).unwrap_err();
    assert!(matches!(err, ImmichError::Transient(_)), "{err:?}");
    assert_eq!(err.to_string(), "immich: HTTP 503 Service Unavailable");
}

#[test]
fn not_found_is_permanent() {
    let err = check_status(404).unwrap_err();
    assert!(matches!(err, ImmichError::Permanent(_)), "{err:?}");
}

#[test]
fn malformed_body_is_permanent() {
    let err = ImmichError::bad_body("expected value at line 1 column 1");
    assert!(matches!(err, ImmichError::Permanent(_)), "{err:?}");
    assert_eq!(
        err.to_string(),
        "immich: bad response body: expected value at line 1 column 1"
    );
}

#[test]
fn immich_request_timeout_is_transient() {
    let err = ImmichError::transport("operation timed out");
    assert!(matches!(err, ImmichError::Transient(_)), "{err:?}");
    assert_eq!(err.to_string(), "immich: operation timed out");
}

#[test]
fn immich_statuses_at_the_edges_of_their_classes() {
    assert!(check_status(200).is_ok());
    assert!(check_status(299).is_ok());
    assert!(matches!(check_status(199), Err(ImmichError::Permanent(_))));
    assert!(matches!(check_status(300), Err(ImmichError::Permanent(_))));
    assert!(matches!(check_status(499), Err(ImmichError::Permanent(_))));
    assert!(matches!(check_status(500), Err(ImmichError::Transient(_))));
    assert!(matches!(check_status(599), Err(ImmichError::Transient(_))));
    assert_eq!(
        check_status(600),
        Err(ImmichError::Permanent(
            "HTTP 600 <unknown status code>".into()
        ))
    );
    assert_eq!(
        sort_status(403, "403 No"),
        Err(ImmichError::Fatal("HTTP 403 No: check the API key".into()))
    );
}

#[test]
fn page_numbers_fit_in_32_bits() {
    assert_eq!(next_page_from(Ok(7)), Ok(7));
    let page = |n: &str| {
        read_page(SearchReply {
            items: Vec::new(),
            next_page: Some(n.into()),
        })
    };
    assert_eq!(page("4294967295").unwrap().next_page, Some(u32::MAX));
    assert!(page("4294967296").is_err());
    assert!(page("").is_err());
}

#[test]
fn immich_setup_failures() {
    assert_eq!(
        ImmichError::no_client("no tls").to_string(),
        "immich: http client: no tls"
    );
    assert!(matches!(ImmichError::no_client("x"), ImmichError::Fatal(_)));
    assert_eq!(
        ImmichError::bad_request("bad url"),
        ImmichError::Permanent("bad request: bad url".into())
    );
}
