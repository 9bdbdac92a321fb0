use sequence_rs::{api_url, build_client, ClientError, DEFAULT_API_BASE_URL};

#[test]
fn default_base_url_matches_spec() {
    assert_eq!(DEFAULT_API_BASE_URL, "https://api.getsequence.io/platform/v1/");
}

#[test]
fn endpoint_urls_append_segments_to_the_base() {
    let u = api_url(DEFAULT_API_BASE_URL, &["accounts"]).unwrap().unwrap();
    assert_eq!(u, "https://api.getsequence.io/platform/v1/accounts");
    let u = api_url("http://127.0.0.1:8080/", &["rules", "r1", "executions", "e1"])
        .unwrap()
        .unwrap();
    assert_eq!(u, "http://127.0.0.1:8080/rules/r1/executions/e1");
}

#[test]
fn path_segments_are_percent_encoded() {
    let u = api_url("http://127.0.0.1:8080/", &["accounts", "a b/c"])
        .unwrap()
        .unwrap();
    assert_eq!(u, "http://127.0.0.1:8080/accounts/a%20b%2Fc");
}

#[test]
fn unparsable_base_is_a_url_error() {
    assert!(matches!(
        api_url("not a url", &["accounts"]),
        Some(Err(ClientError::ParseUrl(_)))
    ));
}

#[test]
fn base_that_cannot_be_a_base_is_reported() {
    assert!(api_url("mailto:someone@example.com", &["accounts"]).is_none());
}

#[test]
fn http_client_builds() {
    assert!(build_client().is_ok());
}
