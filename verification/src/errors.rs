//! Closed error types, one per operation, each variant carrying what the
//! transport layer needs to render the right response class.
//!
//! A validation failure is user-facing and has no side effects; an
//! unexpected failure is operator-facing and surfaces as a generic
//! internal error.

use vstd::prelude::*;

use crate::http_response::{
    HeaderPairView, HttpResponse, HttpResponseView, text_view, STATUS_BAD_REQUEST,
    STATUS_INTERNAL_SERVER_ERROR,
};

verus! {

/// `401 Unauthorized`.
pub const STATUS_UNAUTHORIZED: u16 = 401;

/// Failure of the subscribe operation.
#[derive(Debug)]
pub enum SubscribeError {
    /// The submitted name or address was rejected; the payload says why.
    ValidationError(String),
    /// The store refused the write; the payload describes the cause.
    UnexpectedError(String),
}

impl SubscribeError {
    /// The response class of each variant.
    pub fn into_response(self) -> (r: HttpResponse)
        ensures
            match self {
                SubscribeError::ValidationError(_) => r@ =~= text_view(
                    STATUS_BAD_REQUEST,
                    "bad request"@,
                ),
                SubscribeError::UnexpectedError(_) => r@ =~= text_view(
                    STATUS_INTERNAL_SERVER_ERROR,
                    "internal_server_error"@,
                ),
            },
    {
        match self {
            SubscribeError::ValidationError(_) => HttpResponse::text(
                STATUS_BAD_REQUEST,
                "bad request",
            ),
            SubscribeError::UnexpectedError(_) => HttpResponse::text(
                STATUS_INTERNAL_SERVER_ERROR,
                "internal_server_error",
            ),
        }
    }
}

/// Failure of the subscription confirmation operation.
#[derive(Debug)]
pub enum ConfirmationError {
    /// The store refused a read or write; the payload describes the cause.
    UnexpectedError(String),
    /// No subscriber is associated with the provided token.
    UnknownToken,
}

impl ConfirmationError {
    /// The response class of each variant.
    pub fn into_response(self) -> (r: HttpResponse)
        ensures
            match self {
                ConfirmationError::UnknownToken => r@ =~= text_view(
                    STATUS_UNAUTHORIZED,
                    "unauthorized"@,
                ),
                ConfirmationError::UnexpectedError(_) => r@ =~= text_view(
                    STATUS_INTERNAL_SERVER_ERROR,
                    "internal server error"@,
                ),
            },
    {
        match self {
            ConfirmationError::UnknownToken => HttpResponse::text(
                STATUS_UNAUTHORIZED,
                "unauthorized",
            ),
            ConfirmationError::UnexpectedError(_) => HttpResponse::text(
                STATUS_INTERNAL_SERVER_ERROR,
                "internal server error",
            ),
        }
    }
}

/// Failure of the legacy publish operation.
#[derive(Debug)]
pub enum PublishError {
    /// The caller could not be authenticated.
    AuthError(String),
    /// Anything else; the payload describes the cause.
    UnexpectedError(String),
}

impl PublishError {
    /// The response class of each variant; an authentication failure
    /// carries the challenge header.
    pub fn into_response(self) -> (r: HttpResponse)
        ensures
            match self {
                PublishError::UnexpectedError(_) => r@ =~= text_view(
                    STATUS_INTERNAL_SERVER_ERROR,
                    Seq::empty(),
                ),
                PublishError::AuthError(_) => r@ =~= (HttpResponseView {
                    status: STATUS_UNAUTHORIZED,
                    headers: seq![
                        HeaderPairView {
                            name: "www-authenticate"@,
                            value: "Basic realm=\"publish\""@,
                        },
                    ],
                    body: Seq::empty(),
                }),
            },
    {
        match self {
            PublishError::UnexpectedError(_) => {
                let r = HttpResponse::text(STATUS_INTERNAL_SERVER_ERROR, "");
                proof {
                    reveal_strlit("");
                    assert(r@.body =~= Seq::<char>::empty());
                }
                r
            },
            PublishError::AuthError(_) => {
                let mut r = HttpResponse::text(STATUS_UNAUTHORIZED, "");
                r.headers.push(
                    crate::http_response::HeaderPair::new(
                        String::from_str("www-authenticate"),
                        String::from_str("Basic realm=\"publish\""),
                    ),
                );
                proof {
                    reveal_strlit("");
                    assert(r@.headers =~= seq![
                        HeaderPairView {
                            name: "www-authenticate"@,
                            value: "Basic realm=\"publish\""@,
                        },
                    ]);
                    assert(r@.body =~= Seq::<char>::empty());
                }
                r
            },
        }
    }
}

/// Failure of credential validation.
#[derive(Debug)]
pub enum AuthError {
    /// The username or password is wrong.
    InvalidCredentials(String),
    /// Anything else; the payload describes the cause.
    UnexpectedError(String),
}

/// Failure of the login operation.
#[derive(Debug)]
pub enum LoginError {
    /// The credentials were rejected.
    AuthError(String),
    /// Anything else; the payload describes the cause.
    UnexpectedError(String),
}

impl LoginError {
    /// The response class of each variant.
    pub fn into_response(self) -> (r: HttpResponse)
        ensures
            match self {
                LoginError::AuthError(_) => r@ =~= text_view(STATUS_UNAUTHORIZED, "unauthorized"@),
                LoginError::UnexpectedError(_) => r@ =~= text_view(
                    STATUS_INTERNAL_SERVER_ERROR,
                    "internal server error"@,
                ),
            },
    {
        match self {
            LoginError::AuthError(_) => HttpResponse::text(STATUS_UNAUTHORIZED, "unauthorized"),
            LoginError::UnexpectedError(_) => HttpResponse::text(
                STATUS_INTERNAL_SERVER_ERROR,
                "internal server error",
            ),
        }
    }
}

/// Wraps a rejected input; always rendered as a bare `400 Bad Request`.
#[derive(Debug)]
pub struct ResponseBadRequestError(pub String);

impl ResponseBadRequestError {
    /// A bare `400` with no body.
    pub fn into_response(self) -> (r: HttpResponse)
        ensures
            r@ =~= text_view(STATUS_BAD_REQUEST, Seq::empty()),
    {
        let r = HttpResponse::text(STATUS_BAD_REQUEST, "");
        proof {
            reveal_strlit("");
            assert(r@.body =~= Seq::<char>::empty());
        }
        r
    }
}

/// An error bundled with the status code under which it is reported.
#[derive(Debug)]
pub struct ResponseError {
    status_code: u16,
    internal_error: String,
}

/// Mathematical value of a [`ResponseError`].
#[verifier::ext_equal]
pub struct ResponseErrorView {
    pub status_code: u16,
    pub internal_error: Seq<char>,
}

impl View for ResponseError {
    type V = ResponseErrorView;

    closed spec fn view(&self) -> ResponseErrorView {
        ResponseErrorView { status_code: self.status_code, internal_error: self.internal_error@ }
    }
}

impl ResponseError {
    pub fn new(status_code: u16, internal_error: String) -> (r: ResponseError)
        ensures
            r@ == (ResponseErrorView { status_code, internal_error: internal_error@ }),
    {
        ResponseError { status_code, internal_error }
    }

    /// The same error, reported under another status code.
    pub fn set_status(self, status_code: u16) -> (r: ResponseError)
        ensures
            r@ == (ResponseErrorView { status_code, internal_error: self@.internal_error }),
    {
        ResponseError { status_code, internal_error: self.internal_error }
    }

    /// Wraps any error message under `500 Internal Server Error`.
    pub fn from_message(internal_error: String) -> (r: ResponseError)
        ensures
            r@ == (ResponseErrorView {
                status_code: STATUS_INTERNAL_SERVER_ERROR,
                internal_error: internal_error@,
            }),
    {
        ResponseError { status_code: STATUS_INTERNAL_SERVER_ERROR, internal_error }
    }

    /// The status code under which the error is reported.
    pub fn status_code(&self) -> (r: u16)
        ensures
            r == self@.status_code,
    {
        self.status_code
    }

    /// The wrapped error message.
    pub fn message(&self) -> (r: &str)
        ensures
            r@ == self@.internal_error,
    {
        self.internal_error.as_str()
    }

    /// The status code with the message as body.
    pub fn into_response(self) -> (r: HttpResponse)
        ensures
            r@ =~= text_view(self@.status_code, self@.internal_error),
    {
        HttpResponse::text(self.status_code, self.internal_error.as_str())
    }
}

/// A `400 Bad Request` preserving the root cause for logging.
pub fn e400(internal_error: String) -> (r: ResponseError)
    ensures
        r@ == (ResponseErrorView { status_code: STATUS_BAD_REQUEST, internal_error: internal_error@ }),
{
    ResponseError::from_message(internal_error).set_status(STATUS_BAD_REQUEST)
}

/// A `500 Internal Server Error` preserving the root cause for logging.
pub fn e500(internal_error: String) -> (r: ResponseError)
    ensures
        r@ == (ResponseErrorView {
            status_code: STATUS_INTERNAL_SERVER_ERROR,
            internal_error: internal_error@,
        }),
{
    ResponseError::from_message(internal_error)
}

} // verus!
