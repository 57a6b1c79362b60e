use tinted_store::request::{
    check_status, classify_send_error, client_error, decimal, decode_error, details_url,
    is_success, search_url, send_error, status_display, FetchError, Operation,
};

fn builder_error() -> reqwest::Error {
    reqwest::Client::new().get("not a url").build().unwrap_err()
}

#[test]
fn not_found_is_a_server_error() {
    let e = check_status(404).unwrap_err();
    assert_eq!(e, FetchError::Server(404));
    let m = e.message();
    assert!(m.contains("404"));
    assert_eq!(m, "Server error: HTTP 404 Not Found");
}

#[test]
fn internal_error_is_a_server_error() {
    let e = check_status(500).unwrap_err();
    assert_eq!(e, FetchError::Server(500));
    assert_eq!(e.message(), "Server error: HTTP 500 Internal Server Error");
}

#[test]
fn success_range_passes() {
    assert!(check_status(200).is_ok());
    assert!(check_status(299).is_ok());
    assert!(check_status(199).is_err());
    assert!(check_status(300).is_err());
    assert!(is_success(204));
    assert!(!is_success(301));
}

#[test]
fn unknown_status_has_placeholder_reason() {
    assert_eq!(status_display(599), "599 <unknown status code>");
    assert_eq!(status_display(42), "42 <unknown status code>");
}

#[test]
fn decimal_digits_of_codes() {
    assert_eq!(decimal(0), "0");
    assert_eq!(decimal(7), "7");
    assert_eq!(decimal(404), "404");
    assert_eq!(decimal(65535), "65535");
}

#[test]
fn timeout_is_classified_first() {
    let e = classify_send_error(Operation::Search, true, true, "x".to_string());
    assert_eq!(e, FetchError::Timeout(Operation::Search));
    assert_eq!(e.message(), "Request timeout: The search took too long to complete");
    let e = classify_send_error(Operation::Details, true, false, "x".to_string());
    assert_eq!(e.message(), "Request timeout: The request took too long to complete");
}

#[test]
fn connect_failure_is_classified() {
    let e = classify_send_error(Operation::Details, false, true, "x".to_string());
    assert_eq!(e, FetchError::Connect);
    assert_eq!(e.message(), "Network error: Unable to connect to Flathub");
}

#[test]
fn other_send_failure_keeps_detail() {
    let e = classify_send_error(Operation::Search, false, false, "boom".to_string());
    assert_eq!(e, FetchError::Transport("boom".to_string()));
    assert_eq!(e.message(), "Request failed: boom");
}

#[test]
fn parse_failure_message() {
    let e = FetchError::Parse("expected value at line 1".to_string());
    assert_eq!(
        e.message(),
        "JSON parsing error: Failed to parse server response - expected value at line 1"
    );
}

#[test]
fn client_init_failure_message() {
    let e = FetchError::ClientInit("no resources".to_string());
    assert_eq!(e.message(), "Failed to create HTTP client: no resources");
}

#[test]
fn reqwest_errors_map_to_kinds() {
    let err = builder_error();
    let detail = err.to_string();
    assert_eq!(send_error(Operation::Search, &err), FetchError::Transport(detail.clone()));
    assert_eq!(decode_error(&err), FetchError::Parse(detail.clone()));
    assert_eq!(client_error(&err), FetchError::ClientInit(detail));
}

#[test]
fn search_url_encodes_query() {
    assert_eq!(
        search_url("gimp editor"),
        "https://flathub.org/api/v1/apps/search/gimp%20editor"
    );
    assert_eq!(
        search_url("a/b?c=d&é~._-"),
        "https://flathub.org/api/v1/apps/search/a%2Fb%3Fc%3Dd%26%C3%A9~._-"
    );
}

#[test]
fn details_url_encodes_id() {
    assert_eq!(
        details_url("org.gimp.GIMP"),
        "https://flathub.org/api/v1/apps/org.gimp.GIMP"
    );
    assert_eq!(details_url("a b"), "https://flathub.org/api/v1/apps/a%20b");
}
