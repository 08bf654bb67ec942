//! HTTP statuses and the service's generic error responses.

use vstd::prelude::*;
use crate::text::nat_text;

verus! {

/// What `http::StatusCode`'s `Display` writes for the status `code`: the
/// code, a space and the code's canonical reason phrase.
pub uninterp spec fn status_code_display(code: u16) -> Seq<char>;

/// Calls `axum::http::StatusCode::from_u16(code)` and writes the status with
/// its `Display` impl (`to_string`). `from_u16` accepts the codes from 100 to
/// 999, so `requires` keeps to them. The source writes the code in decimal, a
/// space, and the canonical reason; the contract names that text, states the
/// code and the space in front of it, and the reasons of the two statuses the
/// service answers with on failure, which the source's table gives.
#[verifier::external_body]
fn status_text(code: u16) -> (s: String)
    requires
        100 <= code <= 999,
    ensures
        s@ == status_code_display(code),
        s@.take(4) == nat_text(code as nat).push(' '),
        code == 404 ==> s@ == "404 Not Found"@,
        code == 500 ==> s@ == "500 Internal Server Error"@,
{
    axum::http::StatusCode::from_u16(code).unwrap().to_string()
}

/// The response to a request that failed: a status and a message.
#[derive(Clone, Debug, PartialEq, Eq)]
pub struct HttpError {
    pub status: u16,
    pub message: String,
}

/// A response reduced to what is sent: status code and body text.
#[derive(Clone, Debug, PartialEq, Eq)]
pub struct ResponseParts {
    pub status: u16,
    pub body: String,
}

/// The service's generic errors.
#[derive(Clone, Copy, Debug, PartialEq, Eq)]
pub enum Error {
    NotFound,
    ServerError,
}

/// The status code of a generic error.
pub open spec fn error_status(e: Error) -> u16 {
    match e {
        Error::NotFound => 404,
        Error::ServerError => 500,
    }
}

/// A result whose error is one of the generic errors.
pub type Result<T> = core::result::Result<T, Error>;

impl Error {
    /// The status code of the error.
    pub fn status(&self) -> (code: u16)
        ensures
            code == error_status(*self),
    {
        match self {
            Error::NotFound => 404,
            Error::ServerError => 500,
        }
    }

    /// The response to the error: its status, with the status's text as body.
    pub fn into_response(self) -> (r: ResponseParts)
        ensures
            r.status == error_status(self),
            r.body@ == status_code_display(r.status),
            r.body@.take(4) == nat_text(r.status as nat).push(' '),
            self == Error::NotFound ==> r.body@ == "404 Not Found"@,
            self == Error::ServerError ==> r.body@ == "500 Internal Server Error"@,
    {
        let status = self.status();
        ResponseParts { status, body: status_text(status) }
    }
}

} // verus!
