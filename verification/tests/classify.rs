use error_mock::infra::client::{
    classify, default_on_request_failure, default_on_request_success, Cause, IoErrorKind, Outcome,
    Retryable, TransportError,
};

#[test]
fn transient_status_codes() {
    for status in [500u16, 502, 503, 504, 408, 429] {
        assert_eq!(default_on_request_success(status), Retryable::Transient);
    }
}

#[test]
fn server_errors_are_transient() {
    for status in [500u16, 501, 550, 599] {
        assert_eq!(default_on_request_success(status), Retryable::Transient);
    }
}

#[test]
fn other_client_errors_are_fatal() {
    for status in [400u16, 401, 403, 404, 410, 422, 499] {
        assert_eq!(default_on_request_success(status), Retryable::Fatal);
    }
}

#[test]
fn success_and_redirect_statuses_are_no_error() {
    for status in [200u16, 201, 204, 299, 301, 302, 304, 399] {
        assert_eq!(default_on_request_success(status), Retryable::NoError);
    }
}

#[test]
fn statuses_outside_the_known_ranges_are_fatal() {
    for status in [0u16, 100, 101, 199, 600, 999] {
        assert_eq!(default_on_request_success(status), Retryable::Fatal);
    }
}

#[test]
fn middleware_failures_are_fatal() {
    assert_eq!(
        default_on_request_failure(&TransportError::Middleware),
        Retryable::Fatal
    );
}

#[test]
fn timeout_and_connect_failures_are_transient() {
    assert_eq!(
        default_on_request_failure(&TransportError::Timeout),
        Retryable::Transient
    );
    assert_eq!(
        default_on_request_failure(&TransportError::Connect),
        Retryable::Transient
    );
}

#[test]
fn body_decode_builder_redirect_failures_are_fatal() {
    for error in [
        TransportError::Body,
        TransportError::Decode,
        TransportError::Builder,
        TransportError::Redirect,
    ] {
        assert_eq!(default_on_request_failure(&error), Retryable::Fatal);
    }
}

#[test]
fn unrecognized_failures_are_no_error() {
    assert_eq!(
        default_on_request_failure(&TransportError::Unrecognized),
        Retryable::NoError
    );
}

#[test]
fn incomplete_message_cause_is_transient() {
    let error = TransportError::Request(vec![Cause::Opaque, Cause::IncompleteMessage]);
    assert_eq!(default_on_request_failure(&error), Retryable::Transient);
}

#[test]
fn canceled_by_peer_cause_is_transient() {
    let error = TransportError::Request(vec![Cause::CanceledByPeer]);
    assert_eq!(default_on_request_failure(&error), Retryable::Transient);
}

#[test]
fn wrapped_connection_reset_is_transient() {
    let error = TransportError::Request(vec![
        Cause::Opaque,
        Cause::Opaque,
        Cause::Io(IoErrorKind::ConnectionReset),
    ]);
    assert_eq!(default_on_request_failure(&error), Retryable::Transient);
}

#[test]
fn wrapped_connection_aborted_is_transient() {
    let error = TransportError::Request(vec![Cause::Opaque, Cause::Io(IoErrorKind::ConnectionAborted)]);
    assert_eq!(default_on_request_failure(&error), Retryable::Transient);
}

#[test]
fn wrapped_permission_denied_io_error_is_fatal() {
    let error = TransportError::Request(vec![Cause::Opaque, Cause::Io(IoErrorKind::Other)]);
    assert_eq!(default_on_request_failure(&error), Retryable::Fatal);
}

#[test]
fn first_recognizable_cause_wins() {
    let error = TransportError::Request(vec![
        Cause::Io(IoErrorKind::Other),
        Cause::Io(IoErrorKind::ConnectionReset),
    ]);
    assert_eq!(default_on_request_failure(&error), Retryable::Fatal);
}

#[test]
fn request_failure_without_recognizable_cause_is_fatal() {
    let empty = TransportError::Request(vec![]);
    assert_eq!(default_on_request_failure(&empty), Retryable::Fatal);
    let opaque = TransportError::Request(vec![Cause::Opaque, Cause::Opaque]);
    assert_eq!(default_on_request_failure(&opaque), Retryable::Fatal);
}

#[test]
fn classify_covers_both_outcome_channels() {
    assert_eq!(classify(&Outcome::Success(500)), Retryable::Transient);
    assert_eq!(classify(&Outcome::Success(200)), Retryable::NoError);
    assert_eq!(
        classify(&Outcome::Failure(TransportError::Timeout)),
        Retryable::Transient
    );
}

#[test]
fn classify_twice_yields_the_same_verdict() {
    let outcomes = [
        Outcome::Success(503),
        Outcome::Success(404),
        Outcome::Failure(TransportError::Request(vec![Cause::Io(
            IoErrorKind::ConnectionReset,
        )])),
        Outcome::Failure(TransportError::Unrecognized),
    ];
    for outcome in &outcomes {
        assert_eq!(classify(outcome), classify(outcome));
    }
}
