//! The closed set of failures and their standing towards the caller.

use vstd::prelude::*;

verus! {

/// Why a request was refused.
#[derive(Clone, Copy, Debug, PartialEq, Eq, Structural)]
pub enum ErrorKind {
    /// No identity was presented.
    Unauthorized,
    /// The identity is malformed, unknown or disabled.
    Forbidden,
    /// The request itself is malformed, or the client's stream broke.
    BadRequest,
    /// The declared size exceeds the cap.
    PayloadTooLarge,
    /// Nothing can be served for this identifier and token.
    NotFound,
    /// The metadata store or the filesystem failed.
    InternalError,
}

impl ErrorKind {
    /// The HTTP status that stands for this failure.
    pub open spec fn status(self) -> int {
        match self {
            ErrorKind::Unauthorized => 401,
            ErrorKind::Forbidden => 403,
            ErrorKind::BadRequest => 400,
            ErrorKind::PayloadTooLarge => 413,
            ErrorKind::NotFound => 404,
            ErrorKind::InternalError => 500,
        }
    }

    /// The fixed text sent with this failure.
    pub open spec fn text(self) -> Seq<char> {
        match self {
            ErrorKind::Unauthorized => "Unauthorized"@,
            ErrorKind::Forbidden => "403 For Biden"@,
            ErrorKind::BadRequest => "400 Bad Request"@,
            ErrorKind::PayloadTooLarge => "File too LARGE"@,
            ErrorKind::NotFound => "404 Not Found"@,
            ErrorKind::InternalError => "500 Server Internal Error"@,
        }
    }

    /// The HTTP status that stands for this failure.
    pub fn status_code(self) -> (code: u16)
        ensures
            code == self.status(),
    {
        match self {
            ErrorKind::Unauthorized => 401,
            ErrorKind::Forbidden => 403,
            ErrorKind::BadRequest => 400,
            ErrorKind::PayloadTooLarge => 413,
            ErrorKind::NotFound => 404,
            ErrorKind::InternalError => 500,
        }
    }

    /// The fixed text sent with this failure; it never holds a detail of the
    /// request or of the failure's cause.
    pub fn message(self) -> (text: &'static str)
        ensures
            text@ == self.text(),
    {
        match self {
            ErrorKind::Unauthorized => "Unauthorized",
            ErrorKind::Forbidden => "403 For Biden",
            ErrorKind::BadRequest => "400 Bad Request",
            ErrorKind::PayloadTooLarge => "File too LARGE",
            ErrorKind::NotFound => "404 Not Found",
            ErrorKind::InternalError => "500 Server Internal Error",
        }
    }
}

/// Every failure stands for a client or server error status of its own: no
/// two kinds share one.
pub proof fn lemma_status_tells_kinds_apart(a: ErrorKind, b: ErrorKind)
    ensures
        400 <= a.status() < 600,
        a.status() == b.status() ==> a == b,
{
}

} // verus!
