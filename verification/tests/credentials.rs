use sequence_rs::{build_headers, Credentials};

#[test]
fn credentials_builder() {
    let creds = Credentials::builder()
        .api_key("seq_test_123".to_string())
        .build();
    assert_eq!(creds.api_key.expose_secret(), "seq_test_123");
}

#[test]
fn auth_header_is_bearer() {
    let creds = Credentials::builder()
        .api_key("seq_test_123".to_string())
        .build();
    let headers = creds.auth_headers();
    assert_eq!(headers.get("Authorization").unwrap(), "Bearer seq_test_123");
}

#[test]
fn default_credentials_hold_an_empty_key() {
    let creds = Credentials::default();
    assert_eq!(creds.api_key.expose_secret(), "");
    assert_eq!(creds.auth_headers().get("Authorization").unwrap(), "Bearer ");
}

#[test]
fn secret_is_redacted_in_debug_output_and_survives_clone() {
    let creds = Credentials::builder().api_key("k-123".to_string()).build();
    let copy = creds.clone();
    assert_eq!(copy.api_key.expose_secret(), "k-123");
    assert!(!format!("{creds:?}").contains("k-123"));
}

#[test]
fn idempotency_key_is_sent_verbatim_when_given() {
    let creds = Credentials::builder().api_key("k".to_string()).build();
    let h = build_headers(&creds, Some("stable-key"), &None);
    assert_eq!(h.get("idempotency-key").unwrap(), "stable-key");
    assert_eq!(h.get("Authorization").unwrap(), "Bearer k");
    assert!(h.get("x-called-reason").is_none());
    assert_eq!(h.pairs().len(), 2);
}

#[test]
fn no_idempotency_key_is_fabricated() {
    let creds = Credentials::builder().api_key("k".to_string()).build();
    let h = build_headers(&creds, None, &None);
    assert!(h.get("idempotency-key").is_none());
    assert_eq!(h.pairs().len(), 1);
}

#[test]
fn called_reason_is_sent_when_configured() {
    let creds = Credentials::builder().api_key("k".to_string()).build();
    let h = build_headers(&creds, None, &Some("test/agent".to_string()));
    assert_eq!(h.get("x-called-reason").unwrap(), "test/agent");
    assert!(h.get("idempotency-key").is_none());
}

#[test]
fn headers_insert_replaces_an_existing_value() {
    let mut h = sequence_rs::http::headers::Headers::new();
    h.insert("a".to_string(), "1".to_string());
    h.insert("b".to_string(), "2".to_string());
    h.insert("a".to_string(), "3".to_string());
    assert_eq!(h.get("a").unwrap(), "3");
    assert_eq!(h.get("b").unwrap(), "2");
    assert!(h.get("c").is_none());
    assert_eq!(h.pairs().len(), 2);
}
