use cr_api::errors::{
    e400, e500, ConfirmationError, LoginError, PublishError, ResponseBadRequestError,
    ResponseError, SubscribeError,
};

#[test]
fn e400_and_e500_set_their_status_codes() {
    let bad = e400("no key".to_string());
    assert_eq!(bad.status_code(), 400);
    assert_eq!(bad.message(), "no key");

    let boom = e500("database on fire".to_string());
    assert_eq!(boom.status_code(), 500);
    assert_eq!(boom.message(), "database on fire");
}

#[test]
fn set_status_keeps_the_message() {
    let err = ResponseError::new(500, "oops".to_string()).set_status(418);
    assert_eq!(err.status_code(), 418);
    assert_eq!(err.message(), "oops");
}

#[test]
fn response_error_renders_message_as_body() {
    let resp = e500("database on fire".to_string()).into_response();
    assert_eq!(resp.status, 500);
    assert_eq!(resp.body, "database on fire");
}

#[test]
fn subscribe_error_response_classes() {
    let bad = SubscribeError::ValidationError("x".to_string()).into_response();
    assert_eq!(bad.status, 400);
    assert_eq!(bad.body, "bad request");

    let boom = SubscribeError::UnexpectedError("x".to_string()).into_response();
    assert_eq!(boom.status, 500);
    assert_eq!(boom.body, "internal_server_error");
}

#[test]
fn confirmation_error_response_classes() {
    assert_eq!(ConfirmationError::UnknownToken.into_response().status, 401);
    assert_eq!(
        ConfirmationError::UnexpectedError("x".to_string())
            .into_response()
            .status,
        500
    );
}

#[test]
fn login_error_response_classes() {
    assert_eq!(
        LoginError::AuthError("x".to_string()).into_response().status,
        401
    );
    assert_eq!(
        LoginError::UnexpectedError("x".to_string())
            .into_response()
            .status,
        500
    );
}

#[test]
fn publish_auth_error_carries_the_challenge_header() {
    let resp = PublishError::AuthError("x".to_string()).into_response();
    assert_eq!(resp.status, 401);
    assert_eq!(resp.headers.len(), 1);
    assert_eq!(resp.headers[0].name, "www-authenticate");
    assert_eq!(resp.headers[0].value, "Basic realm=\"publish\"");

    let resp = PublishError::UnexpectedError("x".to_string()).into_response();
    assert_eq!(resp.status, 500);
    assert!(resp.headers.is_empty());
}

#[test]
fn bad_request_wrapper_is_a_bare_400() {
    let resp = ResponseBadRequestError("x".to_string()).into_response();
    assert_eq!(resp.status, 400);
    assert!(resp.body.is_empty());
}
