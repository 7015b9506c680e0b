//! Errors of the control API, their messages and the HTTP status each is
//! answered with.

use vstd::prelude::*;
use crate::text::push_str;

verus! {

/// Errors of the control API.
#[derive(Debug)]
pub enum Error {
    /// Resource not found.
    NotFound(String),
    /// Invalid request.
    BadRequest(String),
    /// Internal server error.
    Internal(String),
    /// Unauthorized access.
    Unauthorized(String),
    /// Forbidden - authenticated but not authorized.
    Forbidden(String),
    /// Service unavailable - remote node unreachable.
    ServiceUnavailable(String),
    /// Engine error.
    Core(crate::error::Error),
}

/// The contents of an [`Error`].
pub enum ErrorView {
    NotFound(Seq<char>),
    BadRequest(Seq<char>),
    Internal(Seq<char>),
    Unauthorized(Seq<char>),
    Forbidden(Seq<char>),
    ServiceUnavailable(Seq<char>),
    Core(crate::error::ErrorView),
}

impl View for Error {
    type V = ErrorView;

    open spec fn view(&self) -> ErrorView {
        match self {
            Error::NotFound(s) => ErrorView::NotFound(s@),
            Error::BadRequest(s) => ErrorView::BadRequest(s@),
            Error::Internal(s) => ErrorView::Internal(s@),
            Error::Unauthorized(s) => ErrorView::Unauthorized(s@),
            Error::Forbidden(s) => ErrorView::Forbidden(s@),
            Error::ServiceUnavailable(s) => ErrorView::ServiceUnavailable(s@),
            Error::Core(e) => ErrorView::Core(e@),
        }
    }
}

/// The HTTP status an API error is answered with.
pub open spec fn api_error_status(e: ErrorView) -> u16 {
    match e {
        ErrorView::NotFound(_) => 404,
        ErrorView::BadRequest(_) => 400,
        ErrorView::Unauthorized(_) => 401,
        ErrorView::Forbidden(_) => 403,
        ErrorView::ServiceUnavailable(_) => 503,
        ErrorView::Internal(_) => 500,
        ErrorView::Core(_) => 500,
    }
}

/// The text in the `error` field of the body an API error is answered with.
pub open spec fn api_error_body(e: ErrorView) -> Seq<char> {
    match e {
        ErrorView::NotFound(s) => s,
        ErrorView::BadRequest(s) => s,
        ErrorView::Unauthorized(s) => s,
        ErrorView::Forbidden(s) => s,
        ErrorView::ServiceUnavailable(s) => s,
        ErrorView::Internal(s) => s,
        ErrorView::Core(c) => crate::error::error_message(c),
    }
}

/// The message of an API error.
pub open spec fn api_error_message(e: ErrorView) -> Seq<char> {
    match e {
        ErrorView::NotFound(s) => "not found: "@ + s,
        ErrorView::BadRequest(s) => "bad request: "@ + s,
        ErrorView::Internal(s) => "internal error: "@ + s,
        ErrorView::Unauthorized(s) => "unauthorized: "@ + s,
        ErrorView::Forbidden(s) => "forbidden: "@ + s,
        ErrorView::ServiceUnavailable(s) => "service unavailable: "@ + s,
        ErrorView::Core(c) => "core error: "@ + crate::error::error_message(c),
    }
}

impl Error {
    /// An `Unauthorized` error with the given text.
    pub fn unauthorized(msg: &str) -> (r: Self)
        ensures
            r@ == ErrorView::Unauthorized(msg@),
    {
        Error::Unauthorized(String::from_str(msg))
    }

    /// A `Forbidden` error with the given text.
    pub fn forbidden(msg: String) -> (r: Self)
        ensures
            r@ == ErrorView::Forbidden(msg@),
    {
        Error::Forbidden(msg)
    }

    /// The HTTP status code the error is answered with.
    pub fn status_code(&self) -> (r: u16)
        ensures
            r == api_error_status(self@),
    {
        match self {
            Error::NotFound(_) => 404,
            Error::BadRequest(_) => 400,
            Error::Unauthorized(_) => 401,
            Error::Forbidden(_) => 403,
            Error::ServiceUnavailable(_) => 503,
            Error::Internal(_) => 500,
            Error::Core(_) => 500,
        }
    }

    /// The text of the `error` field in the response body.
    pub fn body_message(&self) -> (r: String)
        ensures
            r@ == api_error_body(self@),
    {
        match self {
            Error::NotFound(s) => s.clone(),
            Error::BadRequest(s) => s.clone(),
            Error::Unauthorized(s) => s.clone(),
            Error::Forbidden(s) => s.clone(),
            Error::ServiceUnavailable(s) => s.clone(),
            Error::Internal(s) => s.clone(),
            Error::Core(c) => c.message(),
        }
    }

    /// The error's message.
    pub fn message(&self) -> (r: String)
        ensures
            r@ == api_error_message(self@),
    {
        let mut out = String::new();
        match self {
            Error::NotFound(s) => { push_str(&mut out, "not found: "); push_str(&mut out, s.as_str()); },
            Error::BadRequest(s) => { push_str(&mut out, "bad request: "); push_str(&mut out, s.as_str()); },
            Error::Internal(s) => { push_str(&mut out, "internal error: "); push_str(&mut out, s.as_str()); },
            Error::Unauthorized(s) => { push_str(&mut out, "unauthorized: "); push_str(&mut out, s.as_str()); },
            Error::Forbidden(s) => { push_str(&mut out, "forbidden: "); push_str(&mut out, s.as_str()); },
            Error::ServiceUnavailable(s) => { push_str(&mut out, "service unavailable: "); push_str(&mut out, s.as_str()); },
            Error::Core(c) => {
                push_str(&mut out, "core error: ");
                let m = c.message();
                push_str(&mut out, m.as_str());
            },
        }
        out
    }
}

} // verus!
