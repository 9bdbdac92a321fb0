use sequence_rs::model::error::{ApiError, ApiErrorEnvelope};
use sequence_rs::{ClientError, HttpError};
use sequence_rs::http::error::TransportFailure;
use std::time::Duration;

fn envelope(code: &str, message: &str) -> ApiErrorEnvelope {
    ApiErrorEnvelope {
        error: ApiError {
            code: code.to_string(),
            message: message.to_string(),
        },
    }
}

#[test]
fn error_envelope_maps_to_typed_api_error() {
    for (status, code) in [
        (401u16, "UNAUTHORIZED"),
        (403, "ACCESS_DENIED"),
        (404, "ACCOUNT_NOT_FOUND"),
        (422, "VALIDATION_ERROR"),
        (429, "RATE_LIMIT_EXCEEDED"),
        (500, "UNEXPECTED_ERROR"),
    ] {
        let err = HttpError::Status {
            status,
            body: String::new(),
        };
        match ClientError::from_http(err, Some(envelope(code, "boom"))) {
            ClientError::Api(api) => {
                assert_eq!(api.code, code);
                assert_eq!(api.message, "boom");
            }
            other => panic!("expected ClientError::Api, got {other:?}"),
        }
    }
}

#[test]
fn non_envelope_body_falls_back_to_http_error() {
    let err = HttpError::Status {
        status: 502,
        body: "<html>bad gateway</html>".to_string(),
    };
    let e = ClientError::from_http(err, None);
    assert!(
        matches!(&e, ClientError::Http(h) if matches!(**h, HttpError::Status { status: 502, .. })),
        "expected ClientError::Http for non-envelope body, got {e:?}"
    );
}

#[test]
fn budget_expiry_becomes_timeout_and_transport_failures_stay_http() {
    let after = Duration::from_millis(120);
    assert!(matches!(
        ClientError::from_http(HttpError::Timeout { after }, None),
        ClientError::Timeout(d) if d == after
    ));
    let failure = HttpError::Client(TransportFailure {
        timeout: false,
        connect: true,
        detail: "refused".to_string(),
    });
    // An envelope is only ever read from an error response's body.
    assert!(matches!(
        ClientError::from_http(failure, Some(envelope("X", "y"))),
        ClientError::Http(_)
    ));
}

#[test]
fn model_and_api_errors_convert() {
    let e: ClientError = sequence_rs::model::error::ModelError::Validation("bad".to_string()).into();
    assert!(matches!(e, ClientError::Model(_)));
    let e: ClientError = envelope("C", "m").error.into();
    assert!(matches!(e, ClientError::Api(a) if a.code == "C"));
}
