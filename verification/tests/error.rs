use quickwit_clients::error::{
    ApiError, Error, ErrorKind, DEFAULT_ADDRESS, DEFAULT_CONTENT_TYPE,
};

fn status_error(status: u16) -> reqwest::Error {
    let response = http::Response::builder().status(status).body("").unwrap();
    reqwest::Response::from(response).error_for_status().unwrap_err()
}

fn builder_error() -> reqwest::Error {
    reqwest::Client::new().get("not a url").build().unwrap_err()
}

fn json_error() -> serde_json::Error {
    serde_json::from_str::<u32>("nope").unwrap_err()
}

fn api_error(text: &str) -> ApiError {
    ApiError { error: text.to_string() }
}

#[test]
fn only_a_client_error_with_a_status_has_a_status_code() {
    for status in [400, 404, 503] {
        let err = Error::Client(status_error(status));
        assert_eq!(err.status_code().map(|code| code.as_u16()), Some(status));
    }
    assert!(Error::Client(builder_error()).status_code().is_none());
    assert!(Error::Internal("404".to_string()).status_code().is_none());
    assert!(Error::Io(std::io::Error::other("404")).status_code().is_none());
    assert!(Error::UrlParse("404".to_string()).status_code().is_none());
    assert!(Error::Json(json_error()).status_code().is_none());
    assert!(Error::Http("404".to_string()).status_code().is_none());
    assert!(Error::Api(api_error("404")).status_code().is_none());
}

#[test]
fn conversions_keep_the_cause() {
    assert!(matches!(Error::from(status_error(404)), Error::Client(err) if err.is_status()));
    assert!(matches!(
        Error::from(std::io::Error::other("disk")),
        Error::Io(err) if err.to_string() == "disk"
    ));
    assert!(matches!(Error::from(json_error()), Error::Json(err) if err.is_syntax()));
    assert!(matches!(Error::from(api_error("bad")), Error::Api(err) if err.error == "bad"));
}

#[test]
fn texts() {
    let client = status_error(404);
    let client_text = format!("Reqwest client lib error: {}", client);
    assert!(client_text.contains("404"));
    assert_eq!(Error::Client(client).display_text(), client_text);
    assert_eq!(
        Error::Internal("oops".to_string()).display_text(),
        "Internal Quickwit client error: oops"
    );
    assert_eq!(Error::Io(std::io::Error::other("disk")).display_text(), "IO error: disk");
    assert_eq!(
        Error::UrlParse("no host".to_string()).display_text(),
        "Url parsing error: no host"
    );
    assert_eq!(
        Error::Json(json_error()).display_text(),
        "Serde JSON error: expected ident at line 1 column 2"
    );
    assert_eq!(Error::Http("404".to_string()).display_text(), "HTTP error status: 404");
    assert_eq!(Error::Api(api_error("bad")).display_text(), "Api error: (error=bad)");
    assert_eq!(api_error("").display_text(), "(error=)");
}

#[test]
fn kinds_and_details() {
    let errors = [
        (Error::Client(builder_error()), ErrorKind::Client),
        (Error::Internal("a".to_string()), ErrorKind::Internal),
        (Error::Io(std::io::Error::other("a")), ErrorKind::Io),
        (Error::UrlParse("a".to_string()), ErrorKind::UrlParse),
        (Error::Json(json_error()), ErrorKind::Json),
        (Error::Http("a".to_string()), ErrorKind::Http),
        (Error::Api(api_error("a")), ErrorKind::Api),
    ];
    for (err, kind) in &errors {
        assert_eq!(err.kind(), *kind);
        assert_eq!(err.display_text(), kind.message(&err.detail()));
    }
    for (err, _) in &errors {
        let same = errors.iter().filter(|(other, _)| other.display_text() == err.display_text());
        assert_eq!(same.count(), 1);
    }
}

#[test]
fn defaults() {
    assert_eq!(DEFAULT_ADDRESS, "http://127.0.0.1:7280");
    assert_eq!(DEFAULT_CONTENT_TYPE, "application/json");
}
