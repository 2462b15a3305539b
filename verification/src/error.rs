//! What can go wrong while a tile is served, and the HTTP status each failure maps to.

use vstd::prelude::*;
use vstd::string::StringExecFns;
use crate::text::{decimal, push_decimal};

verus! {

/// A failure of a tile request.
#[derive(Debug)]
pub enum AppError {
    /// Transport, TLS, DNS or timeout failure towards upstream; holds the cause as text.
    Upstream(String),
    /// Filesystem failure; holds the cause as text.
    Io(String),
    /// Upstream has no such tile.
    NotFound,
    /// The coordinates lie outside the tile plane, or the file name does not name a row.
    InvalidCoordinates,
    /// Upstream answered with a status other than 200, 304 or 404.
    UpstreamStatus(u16),
}

/// Whether `code` is a status that an HTTP response can carry.
pub open spec fn is_http_status(code: u16) -> bool {
    100 <= code <= 999
}

/// `StatusCode::from_u16` of the `http` crate, read back with `as_u16`: the
/// conversion succeeds exactly for 100 to 999, and the status then holds the
/// number it was made from.
#[verifier::external_body]
fn checked_status(code: u16) -> (r: Option<u16>)
    ensures
        is_http_status(code) ==> r == Some(code),
        !is_http_status(code) ==> r is None,
{
    axum::http::StatusCode::from_u16(code).ok().map(|status| status.as_u16())
}

impl AppError {
    /// The HTTP status that answers a request which failed with `self`.
    pub open spec fn status_of(&self) -> u16 {
        match self {
            AppError::NotFound => 404,
            AppError::InvalidCoordinates => 400,
            AppError::UpstreamStatus(code) => if is_http_status(*code) {
                *code
            } else {
                502
            },
            AppError::Upstream(_) => 502,
            AppError::Io(_) => 502,
        }
    }

    /// The text that describes `self` in a response body.
    pub open spec fn message_of(&self) -> Seq<char> {
        match self {
            AppError::Upstream(cause) => "Upstream error: "@ + cause@,
            AppError::Io(cause) => "IO error: "@ + cause@,
            AppError::NotFound => "Tile not found"@,
            AppError::InvalidCoordinates => "Invalid tile coordinates"@,
            AppError::UpstreamStatus(code) => "Upstream returned "@ + decimal(*code as nat),
        }
    }

    /// The HTTP status that answers a request which failed with `self`: an
    /// upstream status is passed on where it is one that a response can
    /// carry, and is replaced by `502 Bad Gateway` where it is not.
    pub fn status_code(&self) -> (status: u16)
        ensures
            status == self.status_of(),
            is_http_status(status),
    {
        match self {
            AppError::NotFound => 404,
            AppError::InvalidCoordinates => 400,
            AppError::UpstreamStatus(code) => match checked_status(*code) {
                Some(status) => status,
                None => 502,
            },
            AppError::Upstream(_) => 502,
            AppError::Io(_) => 502,
        }
    }

    /// The text that describes `self` in a response body.
    pub fn message(&self) -> (text: String)
        ensures
            text@ == self.message_of(),
    {
        match self {
            AppError::Upstream(cause) => String::from_str("Upstream error: ").concat(
                cause.as_str(),
            ),
            AppError::Io(cause) => String::from_str("IO error: ").concat(cause.as_str()),
            AppError::NotFound => String::from_str("Tile not found"),
            AppError::InvalidCoordinates => String::from_str("Invalid tile coordinates"),
            AppError::UpstreamStatus(code) => {
                let mut text = String::from_str("Upstream returned ");
                push_decimal(&mut text, *code as u64);
                text
            },
        }
    }
}

} // verus!
