use launcher::release::{
    display_pair, fetch_latest_version_info, release_info_from_response, FetchError, VersionInfo,
};
use launcher::text::concat_str;

#[test]
fn success_returns_tag_and_body_unmodified() {
    let body = br#"{"tag_name":"v1.8.2","body":"Fixes\n- crash on start","assets":[]}"#;
    let (version, notes) = fetch_latest_version_info(200, body);
    assert_eq!(version, "v1.8.2");
    assert_eq!(notes, "Fixes\n- crash on start");
}

#[test]
fn success_gives_version_info() {
    let body = br#"{"tag_name":"v2.0","body":"notes"}"#;
    let r = release_info_from_response(204, body);
    assert_eq!(
        r,
        Ok(VersionInfo { version: "v2.0".to_string(), release_notes: "notes".to_string() })
    );
}

#[test]
fn missing_tag_name_gives_placeholder() {
    let body = br#"{"body":"only notes"}"#;
    let (version, notes) = fetch_latest_version_info(200, body);
    assert_eq!(version, "Missing version");
    assert_eq!(notes, "only notes");
}

#[test]
fn non_string_fields_give_placeholders() {
    let body = br#"{"tag_name":12,"body":null}"#;
    let (version, notes) = fetch_latest_version_info(200, body);
    assert_eq!(version, "Missing version");
    assert_eq!(notes, "No release notes available");
}

#[test]
fn non_object_document_gives_placeholders() {
    let (version, notes) = fetch_latest_version_info(200, b"[1, 2, 3]");
    assert_eq!(version, "Missing version");
    assert_eq!(notes, "No release notes available");
}

#[test]
fn non_success_status_gives_api_error() {
    let body = br#"{"tag_name":"v1","body":"x"}"#;
    assert_eq!(
        release_info_from_response(404, body),
        Err(FetchError::ApiStatus("404 Not Found".to_string()))
    );
    let (version, notes) = fetch_latest_version_info(404, body);
    assert_eq!(version, "API Error");
    assert_eq!(notes, "API returned status: 404 Not Found");
    let (version, notes) = fetch_latest_version_info(199, body);
    assert_eq!(version, "API Error");
    assert_eq!(notes, "API returned status: 199 <unknown status code>");
    let (_, notes) = fetch_latest_version_info(300, body);
    assert_eq!(notes, "API returned status: 300 Multiple Choices");
    let (_, notes) = fetch_latest_version_info(503, b"not even json");
    assert_eq!(notes, "API returned status: 503 Service Unavailable");
}

#[test]
fn malformed_json_gives_parse_error() {
    let r = release_info_from_response(200, b"{\"tag_name\": ");
    assert!(matches!(r, Err(FetchError::JsonParse(_))));
    let (version, notes) = fetch_latest_version_info(200, b"not json");
    assert_eq!(version, "JSON Parse Error");
    assert!(notes.starts_with("Error parsing response: "));
    assert!(notes.len() > "Error parsing response: ".len());
    let (version, notes) = fetch_latest_version_info(200, b"");
    assert_eq!(version, "JSON Parse Error");
    assert!(notes.starts_with("Error parsing response: "));
    assert!(notes.len() > "Error parsing response: ".len());
}

#[test]
fn request_failure_is_described() {
    let (version, notes) = FetchError::RequestFailed("connection refused".to_string()).describe();
    assert_eq!(version, "Request Failed");
    assert_eq!(notes, "Network error: connection refused");
}

#[test]
fn display_pair_of_success_is_the_info() {
    let info = VersionInfo { version: "v3".to_string(), release_notes: "n".to_string() };
    assert_eq!(display_pair(Ok(info)), ("v3".to_string(), "n".to_string()));
}

#[test]
fn concatenation() {
    assert_eq!(concat_str("ab", "cd"), "abcd");
    assert_eq!(concat_str("", ""), "");
}
